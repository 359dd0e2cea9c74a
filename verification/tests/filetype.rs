use ffind::args;
use ffind::entry::{DirEntry, EntryType, Probe};
use ffind::filetype::FileType;

fn entry(file_type: EntryType, probe: Probe) -> DirEntry {
    DirEntry { path: b"/root/x".to_vec(), file_name: b"x".to_vec(), file_type, probe }
}

const KINDS: [EntryType; 8] = [
    EntryType::File,
    EntryType::Directory,
    EntryType::Symlink,
    EntryType::BlockDevice,
    EntryType::CharDevice,
    EntryType::Pipe,
    EntryType::Socket,
    EntryType::Unknown,
];

#[test]
fn new_sets_the_requested_flags() {
    let filter = FileType::new(&vec![args::FileType::File, args::FileType::Symlink]);
    assert_eq!(
        filter,
        FileType {
            file: true,
            directory: false,
            symlink: true,
            block_device: false,
            char_device: false,
            pipe: false,
            socket: false,
            empty: false,
        }
    );
}

#[test]
fn new_of_nothing_accepts_nothing() {
    let filter = FileType::new(&vec![]);
    for kind in KINDS {
        assert!(filter.ignore_filetype(&entry(kind, Probe::Sized(0))));
    }
}

#[test]
fn new_takes_repeats_and_any_order() {
    let filter = FileType::new(&vec![
        args::FileType::Socket,
        args::FileType::Pipe,
        args::FileType::Socket,
        args::FileType::BlockDevice,
        args::FileType::CharDevice,
    ]);
    assert!(filter.socket && filter.pipe && filter.block_device && filter.char_device);
    assert!(!filter.file && !filter.directory && !filter.symlink && !filter.empty);
}

#[test]
fn empty_alone_implies_files_and_directories() {
    let filter = FileType::new(&vec![args::FileType::Empty]);
    assert!(filter.empty && filter.file && filter.directory);
    assert!(!filter.symlink);
}

#[test]
fn empty_with_a_type_implies_nothing_more() {
    let files = FileType::new(&vec![args::FileType::Empty, args::FileType::File]);
    assert!(files.empty && files.file && !files.directory);
    let dirs = FileType::new(&vec![args::FileType::Directory, args::FileType::Empty]);
    assert!(dirs.empty && dirs.directory && !dirs.file);
    let links = FileType::new(&vec![args::FileType::Symlink, args::FileType::Empty]);
    assert!(links.empty && links.symlink && links.file && links.directory);
}

#[test]
fn an_entry_is_kept_only_if_its_flag_is_set() {
    let requests = [
        (args::FileType::File, EntryType::File),
        (args::FileType::Directory, EntryType::Directory),
        (args::FileType::Symlink, EntryType::Symlink),
        (args::FileType::BlockDevice, EntryType::BlockDevice),
        (args::FileType::CharDevice, EntryType::CharDevice),
        (args::FileType::Pipe, EntryType::Pipe),
        (args::FileType::Socket, EntryType::Socket),
    ];
    for (request, accepted) in requests {
        let filter = FileType::new(&vec![request]);
        for kind in KINDS {
            let ignored = filter.ignore_filetype(&entry(kind, Probe::Unknown));
            assert_eq!(ignored, kind != accepted);
        }
    }
}

#[test]
fn unknown_kind_is_always_ignored() {
    let filter = FileType::new(&vec![
        args::FileType::File,
        args::FileType::Directory,
        args::FileType::Symlink,
        args::FileType::BlockDevice,
        args::FileType::CharDevice,
        args::FileType::Pipe,
        args::FileType::Socket,
    ]);
    assert!(filter.ignore_filetype(&entry(EntryType::Unknown, Probe::Unknown)));
    assert!(filter.ignore_filetype(&entry(EntryType::Unknown, Probe::Sized(0))));
    assert!(!filter.ignore_filetype(&entry(EntryType::File, Probe::Unknown)));
}

#[test]
fn emptiness_of_files_goes_by_size() {
    assert!(entry(EntryType::File, Probe::Sized(0)).is_empty());
    assert!(!entry(EntryType::File, Probe::Sized(1)).is_empty());
    assert!(!entry(EntryType::File, Probe::Unknown).is_empty());
    assert!(!entry(EntryType::File, Probe::Listed(0)).is_empty());
    assert!(entry(EntryType::Symlink, Probe::Sized(0)).is_empty());
}

#[test]
fn emptiness_of_directories_goes_by_listing() {
    assert!(entry(EntryType::Directory, Probe::Listed(0)).is_empty());
    assert!(!entry(EntryType::Directory, Probe::Listed(1)).is_empty());
    assert!(!entry(EntryType::Directory, Probe::Unknown).is_empty());
    assert!(!entry(EntryType::Directory, Probe::Sized(0)).is_empty());
}

#[test]
fn empty_only_filter_reports_empty_files_and_directories() {
    let filter = FileType::new(&vec![args::FileType::Empty]);
    assert!(!filter.ignore_filetype(&entry(EntryType::File, Probe::Sized(0))));
    assert!(!filter.ignore_filetype(&entry(EntryType::Directory, Probe::Listed(0))));
    assert!(filter.ignore_filetype(&entry(EntryType::Directory, Probe::Listed(2))));
    assert!(filter.ignore_filetype(&entry(EntryType::File, Probe::Sized(9))));
    assert!(filter.ignore_filetype(&entry(EntryType::Symlink, Probe::Sized(0))));
}

#[test]
fn unknown_contents_drop_the_entry_under_empty() {
    let filter = FileType::new(&vec![args::FileType::Empty]);
    assert!(filter.ignore_filetype(&entry(EntryType::File, Probe::Unknown)));
    assert!(filter.ignore_filetype(&entry(EntryType::Directory, Probe::Unknown)));
}

#[test]
fn a_probe_is_needed_only_for_accepted_kinds_under_empty() {
    let plain = FileType::new(&vec![args::FileType::File, args::FileType::Directory]);
    for kind in KINDS {
        assert!(!plain.needs_probe(kind));
    }
    let empty_files = FileType::new(&vec![args::FileType::Empty, args::FileType::File]);
    assert!(empty_files.needs_probe(EntryType::File));
    assert!(!empty_files.needs_probe(EntryType::Directory));
    assert!(!empty_files.needs_probe(EntryType::Unknown));
    let empty_only = FileType::new(&vec![args::FileType::Empty]);
    assert!(empty_only.needs_probe(EntryType::File));
    assert!(empty_only.needs_probe(EntryType::Directory));
    assert!(!empty_only.needs_probe(EntryType::Symlink));
}

#[test]
fn default_filter_accepts_nothing() {
    let filter = FileType::default();
    assert_eq!(filter, FileType::new(&vec![]));
    for kind in KINDS {
        assert!(filter.ignore_filetype(&entry(kind, Probe::Sized(0))));
    }
}
