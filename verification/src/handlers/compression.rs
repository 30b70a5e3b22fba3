//! A compression batch: the fields of one request as they come in, and the
//! files of the request as they get their entries, one after the other.

use vstd::prelude::*;
use vstd::string::*;
use crate::handlers::batch::{
    compressed_views,
    file_name_or_default,
    is_compression_entry,
    item_views,
    lemma_compress_step_is_entry,
    lemma_compression_entry_keeps_name,
    quality_of_field,
};
use crate::handlers::images::{
    compress_image,
    compressed_view,
    finish_compression,
    is_compress_step,
    is_compressed,
    is_compressed_name,
    is_failed_compression,
    is_finished_compression,
    CompressFailure,
    CompressStep,
    CompressedFile,
    CompressedFileView,
    CompressionResponse,
    CompressionTask,
    UploadItem,
    UploadItemView,
};
use crate::naming::extension_of;
use crate::params::{quality_from_text, DEFAULT_QUALITY, MAX_QUALITY, MIN_QUALITY};
use crate::services::compressor::compress_failure_text;

verus! {

/// The fields of a compression request, as far as they have come in.
pub struct CompressionIntake {
    quality: i32,
    items: Vec<UploadItem>,
}

impl CompressionIntake {
    #[verifier::type_invariant]
    spec fn consistent(&self) -> bool {
        MIN_QUALITY <= self.quality <= MAX_QUALITY
    }

    /// The quality that the last `quality` field set; the default where none
    /// has come.
    pub closed spec fn quality_value(&self) -> int {
        self.quality as int
    }

    /// The files that have come, in order.
    pub closed spec fn uploads(&self) -> Seq<UploadItemView> {
        item_views(self.items@)
    }

    /// An intake into which nothing has come: the quality is the default.
    pub fn new() -> (r: Self)
        ensures
            r.quality_value() == DEFAULT_QUALITY,
            r.uploads() == Seq::<UploadItemView>::empty(),
    {
        let r = CompressionIntake { quality: DEFAULT_QUALITY, items: Vec::new() };
        assert(item_views(r.items@) =~= Seq::<UploadItemView>::empty());
        r
    }

    /// Takes a `quality` field: its text, or `None` where the text could not
    /// be read, which counts as the default. A text that writes no integer
    /// counts as the default too, and a number out of range as the nearest in
    /// range. The last field decides.
    pub fn quality_field(&mut self, text: Option<String>)
        ensures
            final(self).quality_value() == quality_of_field(text),
            final(self).uploads() == old(self).uploads(),
    {
        self.quality = match text {
            Some(t) => quality_from_text(t.as_str()),
            None => DEFAULT_QUALITY,
        };
    }

    /// Takes a file: the name that came with it, if one did, and its bytes.
    pub fn file_field(&mut self, file_name: Option<String>, data: Vec<u8>)
        ensures
            final(self).quality_value() == old(self).quality_value(),
            final(self).uploads() == old(self).uploads().push(
                UploadItemView { original_name: file_name_or_default(file_name), raw_bytes: data@ },
            ),
    {
        proof {
            use_type_invariant(&*self);
        }
        let original_name = match file_name {
            Some(name) => name,
            None => "unknown.jpg".to_owned(),
        };
        let mut items: Vec<UploadItem> = Vec::new();
        std::mem::swap(&mut self.items, &mut items);
        items.push(UploadItem { original_name, raw_bytes: data });
        std::mem::swap(&mut self.items, &mut items);
        assert(item_views(self.items@) =~= item_views(old(self).items@).push(
            UploadItemView { original_name: file_name_or_default(file_name), raw_bytes: data@ },
        ));
    }

    /// The number of files that have come.
    pub fn len(&self) -> (n: usize)
        ensures
            n == self.uploads().len(),
    {
        self.items.len()
    }

    /// The quality as it stands.
    pub fn quality(&self) -> (q: i32)
        ensures
            q == self.quality_value(),
            MIN_QUALITY <= q <= MAX_QUALITY,
    {
        proof {
            use_type_invariant(self);
        }
        self.quality
    }

    /// Closes the intake: from here on the files get their entries.
    pub fn begin(self) -> (batch: CompressionBatch)
        ensures
            batch.quality_value() == self.quality_value(),
            batch.uploads() == self.uploads(),
            batch.entries() == Seq::<CompressedFileView>::empty(),
            batch.waiting() is None,
            batch.is_sound(),
    {
        proof {
            use_type_invariant(&self);
        }
        let batch = CompressionBatch {
            quality: self.quality,
            items: self.items,
            files: Vec::new(),
            waiting: None,
        };
        assert(compressed_views(batch.files@) =~= Seq::<CompressedFileView>::empty());
        batch.known_sound();
        batch
    }
}

/// How far a compression batch has come.
pub enum CompressionProgress {
    /// Every file has its entry.
    Complete,
    /// The next file is for a backend: this is to be done, and answered with
    /// `resolve`.
    Pending(CompressionTask),
    /// A file waits for an answer that has not come: `resolve` is due.
    Waiting,
}

/// The files of a compression request and the entries that they have so far.
/// The files get their entries in the order in which they came.
pub struct CompressionBatch {
    quality: i32,
    items: Vec<UploadItem>,
    files: Vec<CompressedFile>,
    waiting: Option<String>,
}

impl CompressionBatch {
    #[verifier::type_invariant]
    spec fn consistent(&self) -> bool {
        &&& MIN_QUALITY <= self.quality <= MAX_QUALITY
        &&& self.files@.len() <= self.items@.len()
        &&& forall|i: int|
            0 <= i < self.files@.len() ==> is_compression_entry(
                #[trigger] self.files@[i]@,
                self.items@[i]@,
            )
        &&& self.waiting matches Some(name) ==> {
            &&& self.files@.len() < self.items@.len()
            &&& is_compressed_name(
                name@,
                extension_of(self.items@[self.files@.len() as int].original_name@),
            )
        }
    }

    /// The quality at which the files are compressed.
    pub closed spec fn quality_value(&self) -> int {
        self.quality as int
    }

    /// The files of the batch, in the order in which they came.
    pub closed spec fn uploads(&self) -> Seq<UploadItemView> {
        item_views(self.items@)
    }

    /// The entries so far: those of the first files.
    pub closed spec fn entries(&self) -> Seq<CompressedFileView> {
        compressed_views(self.files@)
    }

    /// The name kept for the file that waits for a backend.
    pub closed spec fn waiting(&self) -> Option<Seq<char>> {
        match self.waiting {
            Some(name) => Some(name@),
            None => None,
        }
    }

    /// Whether every file has its entry.
    pub open spec fn is_complete(&self) -> bool {
        self.entries().len() == self.uploads().len()
    }

    /// What holds of a batch at every moment: the quality is in range, the
    /// first files have their entries, each at the place of its file and each
    /// an entry of that file, and a file waits only while one is left without
    /// an entry.
    pub open spec fn is_sound(&self) -> bool {
        &&& MIN_QUALITY <= self.quality_value() <= MAX_QUALITY
        &&& self.entries().len() <= self.uploads().len()
        &&& forall|i: int|
            0 <= i < self.entries().len() ==> is_compression_entry(
                #[trigger] self.entries()[i],
                self.uploads()[i],
            )
        &&& self.waiting() is Some ==> !self.is_complete() && is_compressed_name(
            self.waiting()->0,
            extension_of(self.uploads()[self.entries().len() as int].original_name),
        )
    }

    /// Brings what holds of every batch into view.
    fn known_sound(&self)
        ensures
            self.is_sound(),
    {
        proof {
            use_type_invariant(self);
            assert forall|i: int| 0 <= i < self.entries().len() implies is_compression_entry(
                #[trigger] self.entries()[i],
                self.uploads()[i],
            ) by {
                assert(is_compression_entry(self.files@[i]@, self.items@[i]@));
            }
        }
    }

    /// The quality at which the files are compressed.
    pub fn quality(&self) -> (q: i32)
        ensures
            q == self.quality_value(),
            MIN_QUALITY <= q <= MAX_QUALITY,
    {
        proof {
            use_type_invariant(self);
        }
        self.quality
    }

    /// The file that is next to get its entry, if one is left.
    pub fn next_item(&self) -> (r: Option<&UploadItem>)
        ensures
            match r {
                Some(item) => !self.is_complete() && item@ == self.uploads()[self.entries().len() as int],
                None => self.is_complete(),
            },
    {
        proof {
            use_type_invariant(self);
        }
        let k = self.files.len();
        if k < self.items.len() {
            Some(&self.items[k])
        } else {
            None
        }
    }

    /// Whether every file has its entry.
    pub fn complete(&self) -> (r: bool)
        ensures
            r == self.is_complete(),
    {
        proof {
            use_type_invariant(self);
        }
        self.files.len() == self.items.len()
    }

    /// Gives the next file its entry.
    fn push_entry(&mut self, file: CompressedFile)
        requires
            old(self).waiting is None,
            old(self).files@.len() < old(self).items@.len(),
            is_compression_entry(file@, old(self).items@[old(self).files@.len() as int]@),
        ensures
            final(self).quality == old(self).quality,
            final(self).items == old(self).items,
            final(self).waiting is None,
            final(self).files@ == old(self).files@.push(file),
            final(self).entries() == old(self).entries().push(file@),
    {
        proof {
            use_type_invariant(&*self);
        }
        let mut files: Vec<CompressedFile> = Vec::new();
        std::mem::swap(&mut self.files, &mut files);
        files.push(file);
        std::mem::swap(&mut self.files, &mut files);
        assert(compressed_views(self.files@) =~= compressed_views(old(self).files@).push(file@));
    }

    /// Gives the files their entries, one after the other, up to the first
    /// that needs a backend, which is handed back with what the backend is to
    /// do and the name kept for the result. Every entry that is made is that
    /// of a JPEG that could not be decoded: no file is passed over. While a
    /// file waits for its answer, nothing moves.
    pub fn advance(&mut self) -> (progress: CompressionProgress)
        ensures
            final(self).quality_value() == old(self).quality_value(),
            final(self).uploads() == old(self).uploads(),
            old(self).entries().is_prefix_of(final(self).entries()),
            final(self).is_sound(),
            forall|i: int|
                old(self).entries().len() <= i < final(self).entries().len() ==> is_finished_compression(
                    #[trigger] final(self).entries()[i],
                    final(self).uploads()[i],
                ),
            old(self).waiting() is Some <==> progress is Waiting,
            match progress {
                CompressionProgress::Complete => final(self).is_complete() && final(self).waiting()
                    is None,
                CompressionProgress::Pending(task) => {
                    &&& !final(self).is_complete()
                    &&& final(self).waiting() == Some(task.name@)
                    &&& is_compress_step(
                        CompressStep::Pending(task),
                        final(self).uploads()[final(self).entries().len() as int],
                        final(self).quality_value(),
                    )
                },
                CompressionProgress::Waiting => final(self).entries() == old(self).entries()
                    && final(self).waiting() == old(self).waiting(),
            },
    {
        proof {
            use_type_invariant(&*self);
        }
        if self.waiting.is_some() {
            self.known_sound();
            return CompressionProgress::Waiting;
        }
        loop
            invariant
                self.quality == old(self).quality,
                self.items == old(self).items,
                self.waiting is None,
                old(self).waiting is None,
                compressed_views(old(self).files@).is_prefix_of(compressed_views(self.files@)),
                self.files@.len() <= self.items@.len(),
                forall|i: int|
                    old(self).files@.len() <= i < self.files@.len() ==> is_finished_compression(
                        #[trigger] compressed_views(self.files@)[i],
                        item_views(self.items@)[i],
                    ),
            decreases self.items@.len() - self.files@.len(),
        {
            proof {
                use_type_invariant(&*self);
            }
            let k = self.files.len();
            if k >= self.items.len() {
                self.known_sound();
                return CompressionProgress::Complete;
            }
            let step = compress_image(&self.items[k], self.quality);
            match step {
                CompressStep::Finished(file) => {
                    proof {
                        lemma_compress_step_is_entry(
                            step,
                            self.items@[k as int]@,
                            self.quality as int,
                        );
                    }
                    self.push_entry(file);
                },
                CompressStep::Pending(task) => {
                    self.waiting = Some(task.name.clone());
                    self.known_sound();
                    return CompressionProgress::Pending(task);
                },
            }
        }
    }

    /// Takes the answer of the backend for the file that waits: the bytes
    /// that it wrote, or where it gave up. The file gets its entry. Where no
    /// file waits, nothing changes, and `false` is handed back.
    pub fn resolve(&mut self, outcome: Result<Vec<u8>, CompressFailure>) -> (taken: bool)
        ensures
            taken == old(self).waiting() is Some,
            final(self).quality_value() == old(self).quality_value(),
            final(self).uploads() == old(self).uploads(),
            final(self).waiting() is None,
            final(self).is_sound(),
            !taken ==> final(self).entries() == old(self).entries(),
            taken ==> final(self).entries().len() == old(self).entries().len() + 1
                && old(self).entries().is_prefix_of(final(self).entries()),
            taken ==> match outcome {
                Ok(bytes) => final(self).entries().last() == compressed_view(
                    old(self).uploads()[old(self).entries().len() as int].original_name,
                    old(self).waiting()->0,
                    extension_of(
                        old(self).uploads()[old(self).entries().len() as int].original_name,
                    ),
                    old(self).uploads()[old(self).entries().len() as int].raw_bytes.len(),
                    bytes@,
                ),
                Err(failure) => is_failed_compression(
                    final(self).entries().last(),
                    old(self).uploads()[old(self).entries().len() as int].original_name,
                    old(self).uploads()[old(self).entries().len() as int].raw_bytes.len(),
                    compress_failure_text(failure.stage, failure.detail@),
                ),
            },
    {
        proof {
            use_type_invariant(&*self);
        }
        let mut waiting: Option<String> = None;
        std::mem::swap(&mut self.waiting, &mut waiting);
        let name = match waiting {
            Some(name) => name,
            None => {
                self.known_sound();
                return false;
            },
        };
        let k = self.files.len();
        let file = finish_compression(&self.items[k], name, outcome);
        proof {
            let item = self.items@[k as int]@;
            if outcome is Ok {
                assert(is_compressed(file@, item.original_name, item.raw_bytes.len()));
            }
            assert(is_compression_entry(file@, item));
        }
        self.push_entry(file);
        self.known_sound();
        true
    }

    /// The response, once every file has its entry: one entry for each file,
    /// in the order in which the files came, each the entry of its own file.
    /// `None` while a file is left without one.
    pub fn finish(self) -> (r: Option<CompressionResponse>)
        ensures
            r is Some <==> self.is_complete(),
            r matches Some(response) ==> {
                &&& response@ == self.entries()
                &&& response@.len() == self.uploads().len()
                &&& forall|i: int|
                    0 <= i < response@.len() ==> {
                        &&& (#[trigger] response@[i]).original_name
                            == self.uploads()[i].original_name
                        &&& response@[i].original_size == self.uploads()[i].raw_bytes.len()
                        &&& is_compression_entry(response@[i], self.uploads()[i])
                    }
            },
    {
        proof {
            use_type_invariant(&self);
        }
        if self.files.len() != self.items.len() {
            return None;
        }
        let response = CompressionResponse { files: self.files };
        proof {
            assert(response@ =~= compressed_views(self.files@));
            assert forall|i: int| 0 <= i < response@.len() implies {
                &&& (#[trigger] response@[i]).original_name == self.uploads()[i].original_name
                &&& response@[i].original_size == self.uploads()[i].raw_bytes.len()
                &&& is_compression_entry(response@[i], self.uploads()[i])
            } by {
                assert(is_compression_entry(self.files@[i]@, self.items@[i]@));
                lemma_compression_entry_keeps_name(self.files@[i]@, self.items@[i]@);
            }
        }
        Some(response)
    }
}

/// Once every file of a batch has its entry, there are as many entries as
/// files, and the entry at each place bears the name and the size of the file
/// at that place.
pub proof fn lemma_one_entry_for_each_file(batch: CompressionBatch)
    requires
        batch.is_sound(),
        batch.is_complete(),
    ensures
        batch.entries().len() == batch.uploads().len(),
        forall|i: int|
            0 <= i < batch.uploads().len() ==> {
                &&& (#[trigger] batch.entries()[i]).original_name
                    == batch.uploads()[i].original_name
                &&& batch.entries()[i].original_size == batch.uploads()[i].raw_bytes.len()
            },
{
    assert forall|i: int| 0 <= i < batch.uploads().len() implies {
        &&& (#[trigger] batch.entries()[i]).original_name == batch.uploads()[i].original_name
        &&& batch.entries()[i].original_size == batch.uploads()[i].raw_bytes.len()
    } by {
        lemma_compression_entry_keeps_name(batch.entries()[i], batch.uploads()[i]);
    }
}

} // verus!
