//! A file-backed stream source: decoded PCM batches at the file's
//! native configuration, an end of stream after the last one, and —
//! when decoding failed mid-file — the decode error in its place.
//!
//! Decoding itself happens outside the library; the source holds its
//! plain result. A finite file yields its batches in order and then
//! reports its end; the session consumes that end once and stops, so
//! a decode failure still delivers every batch produced before it.

use vstd::prelude::*;
use crate::config::StreamConfig;
use crate::errors::AudioError;
use crate::frames::FrameBatch;
use crate::session::SourceEvent;

verus! {

/// A stream source reading from a decoded file.
#[derive(Debug)]
pub struct FileSource {
    /// The file's native configuration; every batch carries it.
    pub config: StreamConfig,
    /// The decoded batches, in decoding order.
    pub batches: Vec<FrameBatch>,
    /// The error decoding ended with, when it did not end cleanly.
    pub tail_error: Option<AudioError>,
    /// How many batches have been handed out.
    pub pos: usize,
}

impl FileSource {
    /// A source is well formed when its configuration is, every batch
    /// is and carries the native configuration, and the read position
    /// is within bounds.
    pub open spec fn wf(self) -> bool {
        &&& self.config.wf()
        &&& forall|i: int| 0 <= i < self.batches@.len() ==> (#[trigger] self.batches@[i]).wf()
            && self.batches@[i].config == self.config
        &&& self.pos <= self.batches@.len()
    }

    /// Whether the source has handed out all of its batches.
    pub open spec fn exhausted(self) -> bool {
        self.pos == self.batches@.len()
    }

    /// Builds a source over decoded batches. `tail_error` records how
    /// decoding ended when it did not reach the end of the file
    /// cleanly.
    pub fn new(config: StreamConfig, batches: Vec<FrameBatch>, tail_error: Option<AudioError>) -> (r: FileSource)
        requires
            config.wf(),
            forall|i: int| 0 <= i < batches@.len() ==> (#[trigger] batches@[i]).wf()
                && batches@[i].config == config,
        ensures
            r.wf(),
            r.config == config,
            r.batches == batches,
            r.tail_error == tail_error,
            r.pos == 0,
    {
        FileSource { config, batches, tail_error, pos: 0 }
    }

    /// The next event of the stream: each remaining batch in order,
    /// then — exactly when the batches are spent — the end of the
    /// stream, or the decode error when decoding ended in one. The
    /// error is reported once; after it the stream only reports its
    /// end.
    pub fn next_frame_batch(&mut self) -> (r: SourceEvent)
        requires
            old(self).wf(),
        ensures
            final(self).wf(),
            final(self).config == old(self).config,
            final(self).batches == old(self).batches,
            if old(self).exhausted() {
                &&& final(self).pos == old(self).pos
                &&& final(self).tail_error is None
                &&& match old(self).tail_error {
                    None => r == SourceEvent::EndOfStream,
                    Some(e) => r == SourceEvent::Failed(e),
                }
            } else {
                &&& final(self).pos == old(self).pos + 1
                &&& final(self).tail_error == old(self).tail_error
                &&& (r matches SourceEvent::Batch(b) && b.config
                    == old(self).batches@[old(self).pos as int].config && b.samples@
                    == old(self).batches@[old(self).pos as int].samples@)
            },
    {
        if self.pos < self.batches.len() {
            let b = self.batches[self.pos].duplicate();
            self.pos = self.pos + 1;
            SourceEvent::Batch(b)
        } else {
            match self.tail_error.take() {
                None => SourceEvent::EndOfStream,
                Some(e) => SourceEvent::Failed(e),
            }
        }
    }
}

} // verus!
