//! Analyzers that run sound-analysis requests over audio.

use vstd::prelude::*;

use crate::arc::A;
use crate::av::{AudioBuf, AudioFormat, AudioFramePos};
use crate::av::audio::without_id;
use crate::ns;
use crate::sn::Request;

verus! {

/// One buffer an analyzer has consumed: its stream position and length.
#[derive(Clone, Copy, PartialEq, Eq, Structural, Debug)]
pub struct AnalyzedChunk {
    pub pos: i64,
    pub frame_len: usize,
}

/// Analyzes a stream of audio buffers against a set of requests.
pub struct AudioStreamAnalyzer {
    format: AudioFormat,
    requests: Vec<u64>,
    processed: Vec<AnalyzedChunk>,
    completed: bool,
}

impl A<AudioStreamAnalyzer> {
    /// Initializes the allocated analyzer for one PCM stream format.
    pub fn init_with_format(self, format: &AudioFormat) -> (a: AudioStreamAnalyzer)
        ensures
            a.format_spec() == *format,
            a.requests_view() == Seq::<u64>::empty(),
            a.processed_view() == Seq::<AnalyzedChunk>::empty(),
            !a.completed_spec(),
    {
        let a = AudioStreamAnalyzer {
            format: *format,
            requests: Vec::new(),
            processed: Vec::new(),
            completed: false,
        };
        proof {
            assert(a.requests_view() =~= Seq::<u64>::empty());
            assert(a.processed_view() =~= Seq::<AnalyzedChunk>::empty());
        }
        a
    }
}

impl AudioStreamAnalyzer {
    /// The stream format the analyzer was created for.
    pub closed spec fn format_spec(self) -> AudioFormat {
        self.format
    }

    /// The added requests, in addition order.
    pub closed spec fn requests_view(self) -> Seq<u64> {
        self.requests@
    }

    /// The buffers analyzed so far, in order.
    pub closed spec fn processed_view(self) -> Seq<AnalyzedChunk> {
        self.processed@
    }

    /// Whether the stream has been completed.
    pub closed spec fn completed_spec(self) -> bool {
        self.completed
    }

    /// A fresh, uninitialized analyzer instance.
    pub fn allocate() -> (a: A<AudioStreamAnalyzer>) {
        A::allocate()
    }

    /// An analyzer for one PCM stream format.  Only PCM formats are
    /// supported.
    pub fn with_format(format: &AudioFormat) -> (a: AudioStreamAnalyzer)
        ensures
            a.format_spec() == *format,
            a.requests_view() == Seq::<u64>::empty(),
            a.processed_view() == Seq::<AnalyzedChunk>::empty(),
            !a.completed_spec(),
    {
        AudioStreamAnalyzer::allocate().init_with_format(format)
    }

    /// Adds one analysis request; a request already added is rejected.
    pub fn add_request(&mut self, request: &Request) -> (r: Result<(), ns::Error>)
        requires
            old(self).requests_view().len() < usize::MAX,
        ensures
            r is Ok <==> !old(self).requests_view().contains(request.id),
            r is Ok ==> final(self).requests_view() == old(self).requests_view().push(request.id),
            r is Err ==> final(self).requests_view() == old(self).requests_view(),
            final(self).format_spec() == old(self).format_spec(),
            final(self).processed_view() == old(self).processed_view(),
            final(self).completed_spec() == old(self).completed_spec(),
    {
        let n = self.requests.len();
        let mut i: usize = 0;
        while i < n
            invariant
                n == self.requests@.len(),
                i <= n,
                forall|j: int| 0 <= j < i ==> self.requests@[j] != request.id,
            decreases n - i,
        {
            if self.requests[i] == request.id {
                proof {
                    assert(self.requests@.contains(request.id));
                }
                return Err(ns::Error { domain: 0x534e, code: 2 });
            }
            i = i + 1;
        }
        proof {
            assert(!self.requests@.contains(request.id));
        }
        self.requests.push(request.id);
        Ok(())
    }

    /// Removes one request; every added copy of it goes.
    pub fn remove_request(&mut self, request: &Request)
        ensures
            final(self).requests_view() == without_id(old(self).requests_view(), request.id),
            final(self).format_spec() == old(self).format_spec(),
            final(self).processed_view() == old(self).processed_view(),
            final(self).completed_spec() == old(self).completed_spec(),
    {
        let n = self.requests.len();
        let mut kept: Vec<u64> = Vec::new();
        let mut i: usize = 0;
        while i < n
            invariant
                n == self.requests@.len(),
                i <= n,
                kept@ == without_id(self.requests@.take(i as int), request.id),
            decreases n - i,
        {
            proof {
                assert(self.requests@.take(i as int + 1).drop_last() =~= self.requests@.take(
                    i as int,
                ));
            }
            let x = self.requests[i];
            if x != request.id {
                kept.push(x);
            }
            i = i + 1;
        }
        proof {
            assert(self.requests@.take(n as int) =~= self.requests@);
        }
        self.requests = kept;
    }

    /// Removes every request.
    pub fn remove_all_requests(&mut self)
        ensures
            final(self).requests_view() == Seq::<u64>::empty(),
            final(self).format_spec() == old(self).format_spec(),
            final(self).processed_view() == old(self).processed_view(),
            final(self).completed_spec() == old(self).completed_spec(),
    {
        self.requests.clear();
        proof {
            assert(self.requests_view() =~= Seq::<u64>::empty());
        }
    }

    /// Analyzes one buffer at its stream position.  The stream must not
    /// have been completed.
    pub fn analyze_audio_buf_at_pos(&mut self, audio_buf: &AudioBuf, pos: AudioFramePos)
        requires
            !old(self).completed_spec(),
            old(self).processed_view().len() < usize::MAX,
        ensures
            final(self).processed_view() == old(self).processed_view().push(
                AnalyzedChunk { pos, frame_len: audio_buf.frame_len },
            ),
            final(self).requests_view() == old(self).requests_view(),
            final(self).format_spec() == old(self).format_spec(),
            !final(self).completed_spec(),
    {
        self.processed.push(AnalyzedChunk { pos, frame_len: audio_buf.frame_len });
    }

    /// How many buffers the analyzer has consumed.
    pub fn processed_count(&self) -> (n: usize)
        ensures
            (n as nat) == self.processed_view().len(),
    {
        self.processed.len()
    }

    /// Completes the stream: no further buffers will be analyzed.
    pub fn complete_analysis(&mut self)
        ensures
            final(self).completed_spec(),
            final(self).requests_view() == old(self).requests_view(),
            final(self).format_spec() == old(self).format_spec(),
            final(self).processed_view() == old(self).processed_view(),
    {
        self.completed = true;
    }
}

/// Analyzes one audio file against a set of requests.
pub struct AudioFileAnalyzer {
    url: String,
    requests: Vec<u64>,
    analyzed: bool,
    cancelled: bool,
}

impl AudioFileAnalyzer {
    /// The file the analyzer reads, as an opaque location string.
    pub closed spec fn url_view(self) -> Seq<char> {
        self.url@
    }

    /// The added requests, in addition order.
    pub closed spec fn requests_view(self) -> Seq<u64> {
        self.requests@
    }

    /// Whether the file has been analyzed.
    pub closed spec fn analyzed_spec(self) -> bool {
        self.analyzed
    }

    /// Whether the analysis was cancelled.
    pub closed spec fn cancelled_spec(self) -> bool {
        self.cancelled
    }

    /// An analyzer for the file at the given location.
    pub fn with_url(url: String) -> (r: AudioFileAnalyzer)
        ensures
            r.url_view() == url@,
            r.requests_view() == Seq::<u64>::empty(),
            !r.analyzed_spec(),
            !r.cancelled_spec(),
    {
        let a = AudioFileAnalyzer { url, requests: Vec::new(), analyzed: false, cancelled: false };
        proof {
            assert(a.requests_view() =~= Seq::<u64>::empty());
        }
        a
    }

    /// Adds one analysis request; a request already added is rejected.
    pub fn add_request(&mut self, request: &Request) -> (r: Result<(), ns::Error>)
        requires
            old(self).requests_view().len() < usize::MAX,
        ensures
            r is Ok <==> !old(self).requests_view().contains(request.id),
            r is Ok ==> final(self).requests_view() == old(self).requests_view().push(request.id),
            r is Err ==> final(self).requests_view() == old(self).requests_view(),
            final(self).url_view() == old(self).url_view(),
            final(self).analyzed_spec() == old(self).analyzed_spec(),
            final(self).cancelled_spec() == old(self).cancelled_spec(),
    {
        let n = self.requests.len();
        let mut i: usize = 0;
        while i < n
            invariant
                n == self.requests@.len(),
                i <= n,
                forall|j: int| 0 <= j < i ==> self.requests@[j] != request.id,
            decreases n - i,
        {
            if self.requests[i] == request.id {
                proof {
                    assert(self.requests@.contains(request.id));
                }
                return Err(ns::Error { domain: 0x534e, code: 2 });
            }
            i = i + 1;
        }
        proof {
            assert(!self.requests@.contains(request.id));
        }
        self.requests.push(request.id);
        Ok(())
    }

    /// Removes one request; every added copy of it goes.
    pub fn remove_request(&mut self, request: &Request)
        ensures
            final(self).requests_view() == without_id(old(self).requests_view(), request.id),
            final(self).url_view() == old(self).url_view(),
            final(self).analyzed_spec() == old(self).analyzed_spec(),
            final(self).cancelled_spec() == old(self).cancelled_spec(),
    {
        let n = self.requests.len();
        let mut kept: Vec<u64> = Vec::new();
        let mut i: usize = 0;
        while i < n
            invariant
                n == self.requests@.len(),
                i <= n,
                kept@ == without_id(self.requests@.take(i as int), request.id),
            decreases n - i,
        {
            proof {
                assert(self.requests@.take(i as int + 1).drop_last() =~= self.requests@.take(
                    i as int,
                ));
            }
            let x = self.requests[i];
            if x != request.id {
                kept.push(x);
            }
            i = i + 1;
        }
        proof {
            assert(self.requests@.take(n as int) =~= self.requests@);
        }
        self.requests = kept;
    }

    /// Removes every request.
    pub fn remove_all_requests(&mut self)
        ensures
            final(self).requests_view() == Seq::<u64>::empty(),
            final(self).url_view() == old(self).url_view(),
            final(self).analyzed_spec() == old(self).analyzed_spec(),
            final(self).cancelled_spec() == old(self).cancelled_spec(),
    {
        self.requests.clear();
        proof {
            assert(self.requests_view() =~= Seq::<u64>::empty());
        }
    }

    /// Analyzes the whole file synchronously, unless the analysis was
    /// cancelled first.
    pub fn analyze(&mut self)
        ensures
            final(self).analyzed_spec() == (old(self).analyzed_spec() || !old(
                self,
            ).cancelled_spec()),
            final(self).requests_view() == old(self).requests_view(),
            final(self).url_view() == old(self).url_view(),
            final(self).cancelled_spec() == old(self).cancelled_spec(),
    {
        if !self.cancelled {
            self.analyzed = true;
        }
    }

    /// Whether the file has been analyzed.
    pub fn did_analyze(&self) -> (r: bool)
        ensures
            r == self.analyzed_spec(),
    {
        self.analyzed
    }

    /// Whether the analysis was cancelled.
    pub fn is_cancelled(&self) -> (r: bool)
        ensures
            r == self.cancelled_spec(),
    {
        self.cancelled
    }

    /// Cancels the analysis: later analysis calls do nothing.  Work the
    /// runtime has already started is not stopped by this.
    pub fn cancel_analysis(&mut self)
        ensures
            final(self).cancelled_spec(),
            final(self).requests_view() == old(self).requests_view(),
            final(self).url_view() == old(self).url_view(),
            final(self).analyzed_spec() == old(self).analyzed_spec(),
    {
        self.cancelled = true;
    }
}

} // verus!
