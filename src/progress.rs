use vstd::prelude::*;
use crate::batch::completion_label;

verus! {

/// How a progress unit shows its transfer.
#[derive(Clone, Copy, Debug, PartialEq, Eq, Structural)]
pub enum UnitMode {
    /// Size unknown: a spinner with a running byte count.
    Indeterminate,
    /// Size known: a bar out of the given total number of bytes.
    Determinate(u64),
}

/// Sum of a sequence of chunk lengths.
pub open spec fn sum_of(s: Seq<u64>) -> nat
    decreases s.len(),
{
    if s.len() == 0 {
        0
    } else {
        sum_of(s.drop_last()) + s.last() as nat
    }
}

/// Progress state of one episode: its label, display mode, how many bytes
/// were written, and whether it has finished.
pub struct ProgressUnit {
    title: String,
    label: String,
    mode: UnitMode,
    bytes_done: u64,
    finished: bool,
    chunks: Ghost<Seq<u64>>,
}

impl ProgressUnit {
    pub closed spec fn spec_mode(&self) -> UnitMode {
        self.mode
    }

    /// The episode title the unit was made for.
    pub closed spec fn spec_title(&self) -> Seq<char> {
        self.title@
    }

    /// The text shown beside the unit.
    pub closed spec fn spec_label(&self) -> Seq<char> {
        self.label@
    }

    pub closed spec fn spec_bytes_done(&self) -> nat {
        self.bytes_done as nat
    }

    pub closed spec fn spec_finished(&self) -> bool {
        self.finished
    }

    /// The lengths of the chunks written so far, in order.
    pub closed spec fn written(&self) -> Seq<u64> {
        self.chunks@
    }

    /// The byte count is the sum of the chunks written.
    pub open spec fn wf(&self) -> bool {
        self.spec_bytes_done() == sum_of(self.written())
    }

    /// A fresh unit for an episode: labelled with its title, indeterminate,
    /// nothing written, not finished.
    pub fn new(title: &str) -> (r: Self)
        ensures
            r.wf(),
            r.spec_title() == title@,
            r.spec_label() == title@,
            r.spec_mode() == UnitMode::Indeterminate,
            r.spec_bytes_done() == 0,
            r.written() == Seq::<u64>::empty(),
            !r.spec_finished(),
    {
        ProgressUnit {
            title: String::from_str(title),
            label: String::from_str(title),
            mode: UnitMode::Indeterminate, bytes_done: 0, finished: false, chunks: Ghost(Seq::empty()) }
    }

    pub fn label(&self) -> (r: &str)
        ensures
            r@ == self.spec_label(),
    {
        self.label.as_str()
    }

    pub fn mode(&self) -> (r: UnitMode)
        ensures
            r == self.spec_mode(),
    {
        self.mode
    }

    pub fn bytes_done(&self) -> (r: u64)
        ensures
            r as nat == self.spec_bytes_done(),
    {
        self.bytes_done
    }

    pub fn is_finished(&self) -> (r: bool)
        ensures
            r == self.spec_finished(),
    {
        self.finished
    }

    /// Whether the unit shows a bar with a known total.
    pub fn is_determinate(&self) -> (r: bool)
        ensures
            r == (self.spec_mode() is Determinate),
    {
        match self.mode {
            UnitMode::Determinate(_) => true,
            UnitMode::Indeterminate => false,
        }
    }

    /// Takes the size that a fetch response declared. A known positive size
    /// turns an unfinished indeterminate unit that has counted no byte yet
    /// into a bar of that total; otherwise the unit is left as it is.
    pub fn on_content_length(&mut self, len: Option<u64>)
        requires
            old(self).wf(),
        ensures
            final(self).wf(),
            final(self).spec_bytes_done() == old(self).spec_bytes_done(),
            final(self).written() == old(self).written(),
            final(self).spec_finished() == old(self).spec_finished(),
            final(self).spec_title() == old(self).spec_title(),
            final(self).spec_label() == old(self).spec_label(),
            final(self).spec_mode() == (match len {
                Some(l) => if l > 0 && old(self).spec_mode() is Indeterminate
                    && old(self).spec_bytes_done() == 0 && !old(self).spec_finished() {
                    UnitMode::Determinate(l)
                } else {
                    old(self).spec_mode()
                },
                None => old(self).spec_mode(),
            }),
    {
        if let Some(l) = len {
            if l > 0 && !self.finished && self.bytes_done == 0 {
                if let UnitMode::Indeterminate = self.mode {
                    self.mode = UnitMode::Determinate(l);
                }
            }
        }
    }

    /// Counts a chunk of `len` bytes that was written to the episode's file.
    pub fn on_chunk_written(&mut self, len: u64)
        requires
            old(self).wf(),
            old(self).spec_bytes_done() + len <= u64::MAX,
        ensures
            final(self).wf(),
            final(self).spec_bytes_done() == old(self).spec_bytes_done() + len,
            final(self).written() == old(self).written().push(len),
            final(self).spec_mode() == old(self).spec_mode(),
            final(self).spec_finished() == old(self).spec_finished(),
            final(self).spec_title() == old(self).spec_title(),
            final(self).spec_label() == old(self).spec_label(),
    {
        self.bytes_done = self.bytes_done + len;
        let ghost prev = self.chunks@;
        self.chunks = Ghost(prev.push(len));
        assert(self.chunks@.drop_last() =~= prev);
    }

    /// Marks the transfer as complete and labels the unit `完成: <title>`.
    pub fn finish(&mut self)
        requires
            old(self).wf(),
        ensures
            final(self).wf(),
            final(self).spec_finished(),
            final(self).spec_title() == old(self).spec_title(),
            final(self).spec_label() == "完成: "@ + old(self).spec_title(),
            final(self).spec_bytes_done() == old(self).spec_bytes_done(),
            final(self).written() == old(self).written(),
            final(self).spec_mode() == old(self).spec_mode(),
    {
        self.finished = true;
        self.label = completion_label(self.title.as_str());
    }
}

/// The byte count of a unit never goes down, and after any run of writes it
/// is the sum of every chunk length written.
pub proof fn lemma_bytes_done_is_sum(before: ProgressUnit, after: ProgressUnit)
    requires
        before.wf(),
        after.wf(),
        before.written().is_prefix_of(after.written()),
    ensures
        after.spec_bytes_done() == sum_of(after.written()),
        before.spec_bytes_done() <= after.spec_bytes_done(),
{
    lemma_sum_prefix(before.written(), after.written());
}

proof fn lemma_sum_prefix(a: Seq<u64>, b: Seq<u64>)
    requires
        a.is_prefix_of(b),
    ensures
        sum_of(a) <= sum_of(b),
    decreases b.len(),
{
    if b.len() > a.len() {
        assert(a.is_prefix_of(b.drop_last())) by {
            assert forall|k: int| 0 <= k < a.len() implies a[k] == b.drop_last()[k] by {}
        }
        lemma_sum_prefix(a, b.drop_last());
    } else {
        assert(a =~= b);
    }
}

} // verus!
