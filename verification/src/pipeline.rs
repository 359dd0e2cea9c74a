//! Setting up a run: from the settings to the filters, the channel and the
//! walker.

use crate::args::{ArgError, Args};
use crate::channel::{entry_channel, sender_capacity, spec_channel_capacity};
use crate::entry::DirEntry;
use crate::error::PatternError;
use crate::filter::{name_patterns_build, path_patterns_build, pattern_failure, FilterConfig};
use crate::walk::{
    build_walker, byte_paths, lemma_unique, spec_unique, spec_walk_settings, unique_paths,
    walker_settings,
};
use crossbeam_channel::{Receiver, Sender};
use ignore::WalkParallel;
use vstd::prelude::*;

verus! {

/// Why a run could not be set up.
#[derive(Clone, Debug)]
pub enum SetupError {
    /// The settings cannot be run.
    Args(ArgError),
    /// A set of patterns could not be built.
    Pattern(PatternError),
}

/// The parts of a run, ready to start.
pub struct Pipeline {
    /// The filters, shared read-only by the workers and the writer.
    pub filters: FilterConfig,
    /// The workers' end of the channel.
    pub sender: Sender<DirEntry>,
    /// The writer's end of the channel.
    pub receiver: Receiver<DirEntry>,
    /// The walker over the root paths.
    pub walker: WalkParallel,
}

impl Pipeline {
    /// Whether the parts are those that `args` asks for: its filters, a
    /// channel of 16 entries for every thread but the writer's, and a
    /// walker over the root paths without repeats.
    pub open spec fn set_up_for(&self, args: Args) -> bool {
        &&& self.filters.built_from(args)
        &&& self.filters.wf()
        &&& sender_capacity(self.sender) == Some(spec_channel_capacity(args.threads) as usize)
        &&& walker_settings(self.walker) == spec_walk_settings(
            args,
            spec_unique(byte_paths(args.path@)),
        )
    }

    /// Sets up a run. Fails before anything is traversed: on settings that
    /// cannot be run, else on patterns that cannot be built.
    pub fn new(args: &Args) -> (res: Result<Pipeline, SetupError>)
        ensures
            res is Ok <==> args.valid() && name_patterns_build(*args) && path_patterns_build(
                *args,
            ),
            res matches Ok(pipeline) ==> pipeline.set_up_for(*args),
            res matches Err(SetupError::Args(e)) ==> !args.valid() && args.validate_fails_with(e),
            res matches Err(SetupError::Pattern(e)) ==> args.valid() && pattern_failure(*args, e),
    {
        match args.validate() {
            Ok(()) => {},
            Err(e) => {
                return Err(SetupError::Args(e));
            },
        }
        let filters = match FilterConfig::new(args) {
            Ok(filters) => filters,
            Err(e) => {
                return Err(SetupError::Pattern(e));
            },
        };
        let (sender, receiver) = entry_channel(args.threads);
        let roots = unique_paths(args.path.as_slice());
        proof {
            // The first path that was given is among the roots, so there is one.
            lemma_unique(byte_paths(args.path@));
            assert(byte_paths(args.path@).contains(byte_paths(args.path@)[0]));
        }
        let walker = build_walker(args, roots.as_slice());
        Ok(Pipeline { filters, sender, receiver, walker })
    }
}

} // verus!
