//! A conversion batch: the fields of one request as they come in, and the
//! files of the request as they get their entries, one after the other.

use vstd::prelude::*;
use vstd::string::*;
use crate::handlers::batch::{
    converted_views,
    file_name_or_default,
    is_conversion_entry,
    item_views,
    lemma_conversion_entry_keeps_name,
    lemma_convert_step_is_entry,
};
use crate::handlers::images::{
    convert_image,
    converted_view,
    finish_conversion,
    is_convert_step,
    is_converted,
    is_converted_name,
    is_failed_conversion,
    is_finished_conversion,
    ConversionResponse,
    ConversionTask,
    ConvertStep,
    ConvertedFile,
    ConvertedFileView,
    StillImageFailure,
    UploadItem,
    UploadItemView,
};
use crate::params::{resolve_format, resolved_format};
use crate::services::converter::still_image_failure_text;

verus! {

/// The fields of a conversion request, as far as they have come in.
pub struct ConversionIntake {
    format: String,
    items: Vec<UploadItem>,
}

impl ConversionIntake {
    /// The value of the last `format` field; empty where none has come.
    pub closed spec fn format_text(&self) -> Seq<char> {
        self.format@
    }

    /// The files that have come, in order.
    pub closed spec fn uploads(&self) -> Seq<UploadItemView> {
        item_views(self.items@)
    }

    /// An intake into which nothing has come.
    pub fn new() -> (r: Self)
        ensures
            r.format_text() == Seq::<char>::empty(),
            r.uploads() == Seq::<UploadItemView>::empty(),
    {
        let r = ConversionIntake { format: String::new(), items: Vec::new() };
        assert(item_views(r.items@) =~= Seq::<UploadItemView>::empty());
        r
    }

    /// Takes a `format` field: its text, or `None` where the text could not
    /// be read, which counts as `webp`. The last field decides.
    pub fn format_field(&mut self, text: Option<String>)
        ensures
            final(self).format_text() == (match text {
                Some(t) => t@,
                None => "webp"@,
            }),
            final(self).uploads() == old(self).uploads(),
    {
        self.format = match text {
            Some(t) => t,
            None => "webp".to_owned(),
        };
    }

    /// Takes a file: the name that came with it, if one did, and its bytes.
    pub fn file_field(&mut self, file_name: Option<String>, data: Vec<u8>)
        ensures
            final(self).format_text() == old(self).format_text(),
            final(self).uploads() == old(self).uploads().push(
                UploadItemView { original_name: file_name_or_default(file_name), raw_bytes: data@ },
            ),
    {
        let original_name = match file_name {
            Some(name) => name,
            None => "unknown.jpg".to_owned(),
        };
        self.items.push(UploadItem { original_name, raw_bytes: data });
        assert(item_views(self.items@) =~= item_views(old(self).items@).push(
            UploadItemView { original_name: file_name_or_default(file_name), raw_bytes: data@ },
        ));
    }

    /// The number of files that have come.
    pub fn len(&self) -> (n: usize)
        ensures
            n == self.uploads().len(),
    {
        self.items.len()
    }

    /// Closes the intake: from here on the files get their entries. The
    /// format is the one that came, or `webp` where none or an empty one came.
    pub fn begin(self) -> (batch: ConversionBatch)
        ensures
            batch.format_text() == resolved_format(self.format_text()),
            batch.uploads() == self.uploads(),
            batch.entries() == Seq::<ConvertedFileView>::empty(),
            batch.waiting() is None,
            batch.is_sound(),
    {
        let format = resolve_format(self.format.as_str());
        let batch = ConversionBatch {
            format,
            items: self.items,
            files: Vec::new(),
            waiting: None,
        };
        assert(converted_views(batch.files@) =~= Seq::<ConvertedFileView>::empty());
        batch.known_sound();
        batch
    }
}

/// How far a conversion batch has come.
pub enum ConversionProgress {
    /// Every file has its entry.
    Complete,
    /// The next file is for the still-image backend: this is to be done, and
    /// answered with `resolve`.
    Pending(ConversionTask),
    /// A file waits for an answer that has not come: `resolve` is due.
    Waiting,
}

/// The files of a conversion request and the entries that they have so far.
/// The files get their entries in the order in which they came.
pub struct ConversionBatch {
    format: String,
    items: Vec<UploadItem>,
    files: Vec<ConvertedFile>,
    waiting: Option<String>,
}

impl ConversionBatch {
    #[verifier::type_invariant]
    spec fn consistent(&self) -> bool {
        &&& self.files@.len() <= self.items@.len()
        &&& forall|i: int|
            0 <= i < self.files@.len() ==> is_conversion_entry(
                #[trigger] self.files@[i]@,
                self.items@[i].original_name@,
                self.format@,
            )
        &&& self.waiting matches Some(name) ==> {
            &&& self.files@.len() < self.items@.len()
            &&& is_converted_name(name@, self.format@)
        }
    }

    /// The format that the files are converted to.
    pub closed spec fn format_text(&self) -> Seq<char> {
        self.format@
    }

    /// The files of the batch, in the order in which they came.
    pub closed spec fn uploads(&self) -> Seq<UploadItemView> {
        item_views(self.items@)
    }

    /// The entries so far: those of the first files.
    pub closed spec fn entries(&self) -> Seq<ConvertedFileView> {
        converted_views(self.files@)
    }

    /// The name kept for the file that waits for the still-image backend.
    pub closed spec fn waiting(&self) -> Option<Seq<char>> {
        match self.waiting {
            Some(name) => Some(name@),
            None => None,
        }
    }

    /// Whether every file has its entry.
    pub open spec fn is_complete(&self) -> bool {
        self.entries().len() == self.uploads().len()
    }

    /// What holds of a batch at every moment: the first files have their
    /// entries, each at the place of its file and each an entry of that file,
    /// and a file waits only while one is left without an entry.
    pub open spec fn is_sound(&self) -> bool {
        &&& self.entries().len() <= self.uploads().len()
        &&& forall|i: int|
            0 <= i < self.entries().len() ==> is_conversion_entry(
                #[trigger] self.entries()[i],
                self.uploads()[i].original_name,
                self.format_text(),
            )
        &&& self.waiting() is Some ==> !self.is_complete() && is_converted_name(
            self.waiting()->0,
            self.format_text(),
        )
    }

    /// Brings what holds of every batch into view.
    fn known_sound(&self)
        ensures
            self.is_sound(),
    {
        proof {
            use_type_invariant(self);
            assert forall|i: int| 0 <= i < self.entries().len() implies is_conversion_entry(
                #[trigger] self.entries()[i],
                self.uploads()[i].original_name,
                self.format_text(),
            ) by {
                assert(is_conversion_entry(
                    self.files@[i]@,
                    self.items@[i].original_name@,
                    self.format@,
                ));
            }
        }
    }

    /// The format that the files are converted to.
    pub fn format(&self) -> (r: &str)
        ensures
            r@ == self.format_text(),
    {
        self.format.as_str()
    }

    /// The file that is next to get its entry, if one is left.
    pub fn next_item(&self) -> (r: Option<&UploadItem>)
        ensures
            match r {
                Some(item) => !self.is_complete() && item@ == self.uploads()[self.entries().len() as int],
                None => self.is_complete(),
            },
    {
        proof {
            use_type_invariant(self);
        }
        let k = self.files.len();
        if k < self.items.len() {
            Some(&self.items[k])
        } else {
            None
        }
    }

    /// Whether every file has its entry.
    pub fn complete(&self) -> (r: bool)
        ensures
            r == self.is_complete(),
    {
        proof {
            use_type_invariant(self);
        }
        self.files.len() == self.items.len()
    }

    /// Gives the next file its entry.
    fn push_entry(&mut self, file: ConvertedFile)
        requires
            old(self).waiting is None,
            old(self).files@.len() < old(self).items@.len(),
            is_conversion_entry(
                file@,
                old(self).items@[old(self).files@.len() as int].original_name@,
                old(self).format@,
            ),
        ensures
            final(self).format == old(self).format,
            final(self).items == old(self).items,
            final(self).waiting is None,
            final(self).files@ == old(self).files@.push(file),
            final(self).entries() == old(self).entries().push(file@),
    {
        proof {
            use_type_invariant(&*self);
        }
        let mut files: Vec<ConvertedFile> = Vec::new();
        std::mem::swap(&mut self.files, &mut files);
        files.push(file);
        std::mem::swap(&mut self.files, &mut files);
        assert(converted_views(self.files@) =~= converted_views(old(self).files@).push(file@));
    }

    /// Gives the files their entries, one after the other, up to the first
    /// that needs the still-image backend, which is handed back with what the
    /// backend is to do and the name kept for the result. Every entry that is
    /// made is that of a file that is converted here, with what its own
    /// conversion came to: no file is passed over. While a file waits for its
    /// answer, nothing moves.
    pub fn advance(&mut self) -> (progress: ConversionProgress)
        ensures
            final(self).format_text() == old(self).format_text(),
            final(self).uploads() == old(self).uploads(),
            old(self).entries().is_prefix_of(final(self).entries()),
            final(self).is_sound(),
            forall|i: int|
                old(self).entries().len() <= i < final(self).entries().len() ==> is_finished_conversion(
                    #[trigger] final(self).entries()[i],
                    final(self).uploads()[i],
                    final(self).format_text(),
                ),
            old(self).waiting() is Some <==> progress is Waiting,
            match progress {
                ConversionProgress::Complete => final(self).is_complete() && final(self).waiting()
                    is None,
                ConversionProgress::Pending(task) => {
                    &&& !final(self).is_complete()
                    &&& final(self).waiting() == Some(task.name@)
                    &&& is_convert_step(
                        ConvertStep::Pending(task),
                        final(self).uploads()[final(self).entries().len() as int],
                        final(self).format_text(),
                    )
                },
                ConversionProgress::Waiting => final(self).entries() == old(self).entries()
                    && final(self).waiting() == old(self).waiting(),
            },
    {
        proof {
            use_type_invariant(&*self);
        }
        if self.waiting.is_some() {
            self.known_sound();
            return ConversionProgress::Waiting;
        }
        loop
            invariant
                self.format == old(self).format,
                self.items == old(self).items,
                self.waiting is None,
                old(self).waiting is None,
                converted_views(old(self).files@).is_prefix_of(converted_views(self.files@)),
                self.files@.len() <= self.items@.len(),
                forall|i: int|
                    old(self).files@.len() <= i < self.files@.len() ==> is_finished_conversion(
                        #[trigger] converted_views(self.files@)[i],
                        item_views(self.items@)[i],
                        self.format@,
                    ),
            decreases self.items@.len() - self.files@.len(),
        {
            proof {
                use_type_invariant(&*self);
            }
            let k = self.files.len();
            if k >= self.items.len() {
                self.known_sound();
                return ConversionProgress::Complete;
            }
            let step = convert_image(&self.items[k], self.format.as_str());
            match step {
                ConvertStep::Finished(file) => {
                    proof {
                        lemma_convert_step_is_entry(step, self.items@[k as int]@, self.format@);
                    }
                    self.push_entry(file);
                },
                ConvertStep::Pending(task) => {
                    self.waiting = Some(task.name.clone());
                    self.known_sound();
                    return ConversionProgress::Pending(task);
                },
            }
        }
    }

    /// Takes the answer of the still-image backend for the file that waits:
    /// the bytes that it wrote, or where it gave up. The file gets its entry.
    /// Where no file waits, nothing changes, and `false` is handed back.
    pub fn resolve(&mut self, outcome: Result<Vec<u8>, StillImageFailure>) -> (taken: bool)
        ensures
            taken == old(self).waiting() is Some,
            final(self).format_text() == old(self).format_text(),
            final(self).uploads() == old(self).uploads(),
            final(self).waiting() is None,
            final(self).is_sound(),
            !taken ==> final(self).entries() == old(self).entries(),
            taken ==> final(self).entries().len() == old(self).entries().len() + 1
                && old(self).entries().is_prefix_of(final(self).entries()),
            taken ==> match outcome {
                Ok(bytes) => final(self).entries().last() == converted_view(
                    old(self).uploads()[old(self).entries().len() as int].original_name,
                    old(self).waiting()->0,
                    old(self).format_text(),
                    bytes@,
                ),
                Err(failure) => is_failed_conversion(
                    final(self).entries().last(),
                    old(self).uploads()[old(self).entries().len() as int].original_name,
                    still_image_failure_text(failure.stage, failure.detail@),
                ),
            },
    {
        proof {
            use_type_invariant(&*self);
        }
        let mut waiting: Option<String> = None;
        std::mem::swap(&mut self.waiting, &mut waiting);
        let name = match waiting {
            Some(name) => name,
            None => {
                self.known_sound();
                return false;
            },
        };
        let k = self.files.len();
        let file = finish_conversion(&self.items[k], name, self.format.as_str(), outcome);
        proof {
            let original_name = self.items@[k as int].original_name@;
            if outcome is Ok {
                assert(is_converted(file@, original_name, self.format@));
            }
            assert(is_conversion_entry(file@, original_name, self.format@));
        }
        self.push_entry(file);
        self.known_sound();
        true
    }

    /// The response, once every file has its entry: one entry for each file,
    /// in the order in which the files came, each the entry of its own file.
    /// `None` while a file is left without one.
    pub fn finish(self) -> (r: Option<ConversionResponse>)
        ensures
            r is Some <==> self.is_complete(),
            r matches Some(response) ==> {
                &&& response@ == self.entries()
                &&& response@.len() == self.uploads().len()
                &&& forall|i: int|
                    0 <= i < response@.len() ==> {
                        &&& (#[trigger] response@[i]).original_name
                            == self.uploads()[i].original_name
                        &&& is_conversion_entry(
                            response@[i],
                            self.uploads()[i].original_name,
                            self.format_text(),
                        )
                    }
            },
    {
        proof {
            use_type_invariant(&self);
        }
        if self.files.len() != self.items.len() {
            return None;
        }
        let response = ConversionResponse { files: self.files };
        proof {
            assert(response@ =~= converted_views(self.files@));
            assert forall|i: int| 0 <= i < response@.len() implies {
                &&& (#[trigger] response@[i]).original_name == self.uploads()[i].original_name
                &&& is_conversion_entry(
                    response@[i],
                    self.uploads()[i].original_name,
                    self.format_text(),
                )
            } by {
                assert(is_conversion_entry(
                    self.files@[i]@,
                    self.items@[i].original_name@,
                    self.format@,
                ));
                lemma_conversion_entry_keeps_name(
                    self.files@[i]@,
                    self.items@[i].original_name@,
                    self.format@,
                );
            }
        }
        Some(response)
    }
}

/// Once every file of a batch has its entry, there are as many entries as
/// files, and the entry at each place bears the name of the file at that
/// place.
pub proof fn lemma_one_entry_for_each_file(batch: ConversionBatch)
    requires
        batch.is_sound(),
        batch.is_complete(),
    ensures
        batch.entries().len() == batch.uploads().len(),
        forall|i: int|
            0 <= i < batch.uploads().len() ==> (#[trigger] batch.entries()[i]).original_name
                == batch.uploads()[i].original_name,
{
    assert forall|i: int| 0 <= i < batch.uploads().len() implies (#[trigger] batch.entries()[
        i
    ]).original_name == batch.uploads()[i].original_name by {
        lemma_conversion_entry_keeps_name(
            batch.entries()[i],
            batch.uploads()[i].original_name,
            batch.format_text(),
        );
    }
}

} // verus!
