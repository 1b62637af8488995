//! The file service: the download, upload and listing handlers' decisions.
//!
//! The handlers here work on plain values — the surrounding process opens,
//! reads and enumerates on their behalf and performs the actions they return.
//! A download or listing failure travels as one in-band terminal value inside
//! the stream, because the response headers are already committed once
//! streaming has begun.

use crate::codec;
use crate::frame::{Frame, FrameView, TransferError, CHUNK_SIZE_BYTES};
use vstd::prelude::*;

verus! {

/// One item of a download stream: a frame of the transfer, or the in-band
/// terminal error that closes the stream.
pub enum DownloadItem {
    Frame(Frame),
    Error(TransferError),
}

/// The mathematical shape of a [`DownloadItem`].
pub enum DownloadItemView {
    Frame(FrameView),
    Error(TransferError),
}

impl View for DownloadItem {
    type V = DownloadItemView;

    open spec fn view(&self) -> DownloadItemView {
        match self {
            DownloadItem::Frame(f) => DownloadItemView::Frame(f@),
            DownloadItem::Error(e) => DownloadItemView::Error(*e),
        }
    }
}

/// The views of a sequence of download items.
pub open spec fn item_views(items: Seq<DownloadItem>) -> Seq<DownloadItemView> {
    items.map(|i: int, it: DownloadItem| it@)
}

/// What the download stream holds: the whole encoding of the file when it
/// was found, and a single `NotFound` terminal value when it was not.
pub open spec fn spec_download_stream(name: Seq<char>, contents: Option<Seq<u8>>) -> Seq<
    DownloadItemView,
> {
    match contents {
        Option::Some(data) => codec::spec_encoding(name, data).map(
            |i: int, f: FrameView| DownloadItemView::Frame(f),
        ),
        Option::None => seq![DownloadItemView::Error(TransferError::NotFound)],
    }
}

/// One result of reading the source file during a download: the bytes of one
/// read (empty at the end of the file), or a read failure.
pub enum ReadEvent {
    Data(Vec<u8>),
    Failure,
}

/// One regular file of the root directory, as the listing reports it.
pub struct FileEntry {
    pub name: String,
    pub size: u64,
}

/// The mathematical shape of a [`FileEntry`].
pub struct FileEntryView {
    pub name: Seq<char>,
    pub size: u64,
}

impl View for FileEntry {
    type V = FileEntryView;

    open spec fn view(&self) -> FileEntryView {
        FileEntryView { name: self.name@, size: self.size }
    }
}

/// One raw directory entry, as the enumeration yields it: its name, its byte
/// length, and whether it is a regular file.
pub struct DirEntryInfo {
    pub name: String,
    pub size: u64,
    pub is_regular_file: bool,
}

/// The mathematical shape of a [`DirEntryInfo`].
pub struct DirEntryInfoView {
    pub name: Seq<char>,
    pub size: u64,
    pub is_regular_file: bool,
}

impl View for DirEntryInfo {
    type V = DirEntryInfoView;

    open spec fn view(&self) -> DirEntryInfoView {
        DirEntryInfoView { name: self.name@, size: self.size, is_regular_file: self.is_regular_file }
    }
}

/// The views of a sequence of raw directory entries.
pub open spec fn dir_views(entries: Seq<DirEntryInfo>) -> Seq<DirEntryInfoView> {
    entries.map(|i: int, e: DirEntryInfo| e@)
}

/// The views of a sequence of listing entries.
pub open spec fn entry_views(entries: Seq<FileEntry>) -> Seq<FileEntryView> {
    entries.map(|i: int, e: FileEntry| e@)
}

/// What a listing reports: the regular files among the entries, in the order
/// the enumeration yielded them, each with its name and byte length;
/// directories and other non-file entries are skipped.
pub open spec fn spec_listing(entries: Seq<DirEntryInfoView>) -> Seq<FileEntryView> {
    entries.filter(|e: DirEntryInfoView| e.is_regular_file).map(
        |i: int, e: DirEntryInfoView| FileEntryView { name: e.name, size: e.size },
    )
}

/// The file service: owns the root directory that every request is resolved
/// against.
pub struct FileServiceImpl {
    pub directory: String,
}

impl Default for FileServiceImpl {
    /// A service rooted at the empty path.
    fn default() -> (s: Self)
        ensures
            s.directory@ == Seq::<char>::empty(),
    {
        FileServiceImpl { directory: String::new() }
    }
}

impl FileServiceImpl {
    pub fn new(directory: String) -> (s: Self)
        ensures
            s.directory == directory,
    {
        FileServiceImpl { directory }
    }

    /// The path a requested name resolves to: the root directory joined with
    /// the name (no traversal check, as the protocol leaves it).
    pub fn resolve_path(&self, name: &str) -> (p: String)
        ensures
            p@ == self.directory@ + seq!['/'] + name@,
    {
        crate::join_path(self.directory.as_str(), name)
    }

    /// Decides a whole upload stream at once: exactly the well-formed
    /// transfers succeed, yielding the file name and the bytes to write.
    /// An out-of-order frame is fatal here too, never skipped.
    pub fn upload_file(&self, frames: &Vec<Frame>) -> (r: Result<
        (String, Vec<u8>),
        TransferError,
    >)
        ensures
            r is Ok <==> codec::spec_valid_transfer(codec::views_of(frames@)),
            r matches Ok(p) ==> p.0@ == codec::spec_transfer_name(codec::views_of(frames@)),
            r matches Ok(p) ==> p.1@ == codec::spec_transfer_data(codec::views_of(frames@)),
            r matches Err(e) ==> e == TransferError::ProtocolViolation,
    {
        codec::reassemble(frames)
    }

    /// Builds the download stream for a request: the encoded frames of the
    /// file when it was found (`contents` holds its bytes), and one in-band
    /// `NotFound` terminal value — no `Chunk` frame at all — when it was not.
    pub fn download_file(&self, name: &str, contents: Option<Vec<u8>>) -> (r: Vec<DownloadItem>)
        ensures
            contents is None ==> item_views(r@) == spec_download_stream(name@, None),
            contents matches Some(data) ==> item_views(r@) == spec_download_stream(
                name@,
                Some(data@),
            ),
    {
        match contents {
            Option::None => {
                let mut r: Vec<DownloadItem> = Vec::new();
                r.push(DownloadItem::Error(TransferError::NotFound));
                proof {
                    assert(item_views(r@) =~= spec_download_stream(name@, None));
                }
                r
            },
            Option::Some(data) => {
                let ghost stream = spec_download_stream(name@, Some(data@));
                let mut frames = codec::encode_frames(name, &data);
                let mut r: Vec<DownloadItem> = Vec::new();
                let ghost all = codec::views_of(frames@);
                while frames.len() > 0
                    invariant
                        item_views(r@).len() + codec::views_of(frames@).len() == all.len(),
                        item_views(r@) + codec::views_of(frames@).map(
                            |i: int, f: FrameView| DownloadItemView::Frame(f),
                        ) =~= all.map(|i: int, f: FrameView| DownloadItemView::Frame(f)),
                    decreases frames@.len(),
                {
                    let ghost frames_before = codec::views_of(frames@);
                    let f = frames.remove(0);
                    proof {
                        assert(frames_before =~= seq![f@] + codec::views_of(frames@));
                    }
                    r.push(DownloadItem::Frame(f));
                    proof {
                        assert(item_views(r@) + codec::views_of(frames@).map(
                            |i: int, f: FrameView| DownloadItemView::Frame(f),
                        ) =~= all.map(|i: int, f: FrameView| DownloadItemView::Frame(f)));
                    }
                }
                proof {
                    assert(item_views(r@) =~= all.map(
                        |i: int, f: FrameView| DownloadItemView::Frame(f),
                    ));
                    assert(item_views(r@) =~= stream);
                }
                r
            },
        }
    }

    /// One step of the download producer: the bytes of one read become one
    /// frame to forward (none at the end of the file), and a read failure
    /// becomes the in-band terminal error that closes the stream. The second
    /// component says whether the producer keeps reading: only after a full
    /// chunk, since a short read means the end of the file.
    pub fn download_read_step(&self, event: ReadEvent) -> (r: (Option<DownloadItem>, bool))
        ensures
            event matches ReadEvent::Data(b) && b@.len() == 0 ==> r.0 is None && !r.1,
            event matches ReadEvent::Data(b) ==> (b@.len() > 0 ==> (r.0 matches Some(it) && it@
                == DownloadItemView::Frame(FrameView::Chunk(b@)) && r.1 == (b@.len()
                >= CHUNK_SIZE_BYTES))),
            event is Failure ==> (r.0 matches Some(it) && it@ == DownloadItemView::Error(
                TransferError::IOFailure,
            ) && !r.1),
    {
        match event {
            ReadEvent::Data(bytes) => {
                let (frame, keep_reading) = codec::chunk_read_step(bytes);
                match frame {
                    Option::Some(f) => (Some(DownloadItem::Frame(f)), keep_reading),
                    Option::None => (None, false),
                }
            },
            ReadEvent::Failure => (Some(DownloadItem::Error(TransferError::IOFailure)), false),
        }
    }

    /// Builds the listing stream: one `Ok` entry per regular file, in
    /// enumeration order with names and byte lengths kept, skipping
    /// directories and other non-file entries; a failed enumeration
    /// (`entries` is `None`) yields one in-band terminal error instead.
    pub fn list_files(&self, entries: Option<Vec<DirEntryInfo>>) -> (r: Vec<Result<
        FileEntry,
        TransferError,
    >>)
        ensures
            entries is None ==> r@.len() == 1 && (r@[0] matches Err(e) && e
                == TransferError::IOFailure),
            entries matches Some(es) ==> {
                &&& r@.len() == spec_listing(dir_views(es@)).len()
                &&& (forall|j: int|
                    0 <= j < r@.len() ==> (#[trigger] r@[j] matches Ok(fe) && fe@ == spec_listing(
                        dir_views(es@),
                    )[j]))
            },
    {
        match entries {
            Option::None => {
                let mut r: Vec<Result<FileEntry, TransferError>> = Vec::new();
                r.push(Err(TransferError::IOFailure));
                r
            },
            Option::Some(es) => {
                let ghost all = dir_views(es@);
                let mut es = es;
                let mut r: Vec<Result<FileEntry, TransferError>> = Vec::new();
                let ghost mut done: int = 0;
                proof {
                    reveal_with_fuel(Seq::<_>::filter, 1);
                    assert(all.take(0).filter(|d: DirEntryInfoView| d.is_regular_file)
                        =~= Seq::<DirEntryInfoView>::empty());
                }
                while es.len() > 0
                    invariant
                        0 <= done <= all.len(),
                        dir_views(es@) =~= all.skip(done),
                        r@.len() == spec_listing(all.take(done)).len(),
                        forall|j: int|
                            0 <= j < r@.len() ==> (#[trigger] r@[j] matches Ok(fe) && fe@
                                == spec_listing(all.take(done))[j]),
                    decreases es@.len(),
                {
                    let ghost es_before = dir_views(es@);
                    let e = es.remove(0);
                    proof {
                        assert(es_before =~= seq![e@] + dir_views(es@));
                        assert(es_before[0] == e@);
                        assert(all.skip(done)[0] == all[done]);
                        assert(e@ == all[done]);
                        assert(dir_views(es@) =~= es_before.skip(1));
                        assert(es_before.skip(1) =~= all.skip(done + 1));
                        assert(all.take(done + 1).drop_last() =~= all.take(done));
                        assert(all.take(done + 1).last() == all[done]);
                    }
                    if e.is_regular_file {
                        r.push(Ok(FileEntry { name: e.name, size: e.size }));
                    }
                    proof {
                        reveal_with_fuel(Seq::<_>::filter, 1);
                        let pred = |d: DirEntryInfoView| d.is_regular_file;
                        assert(all.take(done + 1).filter(pred) == if pred(all[done]) {
                            all.take(done).filter(pred).push(all[done])
                        } else {
                            all.take(done).filter(pred)
                        });
                        done = done + 1;
                        assert(dir_views(es@) =~= all.skip(done));
                        assert(forall|j: int|
                            0 <= j < r@.len() ==> (#[trigger] r@[j] matches Ok(fe) && fe@
                                == spec_listing(all.take(done))[j]));
                    }
                }
                proof {
                    assert(all.take(done) =~= all);
                }
                r
            },
        }
    }
}

} // verus!
