//! The finished scans of a session: the history in the side panel and the
//! scan whose results the table shows.
use vstd::prelude::*;
use crate::results::{ScanRecord, ScanRecordView};

verus! {

/// The history of finished scans, oldest first, and which of them is on
/// display.
#[derive(Debug)]
pub struct ScanStore {
    history: Vec<ScanRecord>,
    shown: Option<usize>,
}

pub struct ScanStoreView {
    pub history: Seq<ScanRecordView>,
    pub current: Option<ScanRecordView>,
}

impl View for ScanStore {
    type V = ScanStoreView;

    closed spec fn view(&self) -> ScanStoreView {
        ScanStoreView {
            history: self.history@.map_values(|r: ScanRecord| r@),
            current: match self.shown {
                Some(i) => Some(self.history@[i as int]@),
                None => None,
            },
        }
    }
}

/// The scan on display is one of the history, or there is none.
pub open spec fn store_wf(s: ScanStoreView) -> bool {
    match s.current {
        None => true,
        Some(c) => exists|i: int| 0 <= i < s.history.len() && #[trigger] s.history[i] == c,
    }
}

/// The store after a scan that ended with `outcome`: a finished scan is added
/// to the end of the history and put on display; a failed one leaves the store
/// as it was.
pub open spec fn after_scan(s: ScanStoreView, outcome: Result<ScanRecordView, Seq<char>>) -> ScanStoreView {
    match outcome {
        Ok(r) => ScanStoreView { history: s.history.push(r), current: Some(r) },
        Err(_) => s,
    }
}

/// The reply the scan worker sends: empty after a finished scan, the error
/// text after a failed one.
pub open spec fn scan_reply(outcome: Result<ScanRecordView, Seq<char>>) -> Seq<char> {
    match outcome {
        Ok(_) => Seq::empty(),
        Err(e) => e,
    }
}

/// The view of a scan outcome.
pub open spec fn outcome_view(outcome: Result<ScanRecord, String>) -> Result<ScanRecordView, Seq<char>> {
    match outcome {
        Ok(r) => Ok(r@),
        Err(e) => Err(e@),
    }
}

impl ScanStore {
    /// The scan on display is one of the history.
    #[verifier::type_invariant]
    spec fn shown_in_range(self) -> bool {
        match self.shown {
            None => true,
            Some(i) => i < self.history@.len(),
        }
    }

    proof fn lemma_wf(&self)
        requires
            self.shown_in_range(),
        ensures
            store_wf(self@),
    {
        if let Some(i) = self.shown {
            assert(self@.history[i as int] == self.history@[i as int]@);
        }
    }

    /// An empty history and nothing on display.
    pub fn new() -> (r: Self)
        ensures
            r@.history.len() == 0,
            r@.current is None,
            store_wf(r@),
    {
        ScanStore { history: Vec::new(), shown: None }
    }

    /// The finished scans, oldest first.
    pub fn history(&self) -> (r: &Vec<ScanRecord>)
        ensures
            r@.map_values(|x: ScanRecord| x@) == self@.history,
    {
        &self.history
    }

    /// The scan on display, if any.
    pub fn current(&self) -> (r: Option<&ScanRecord>)
        ensures
            match r {
                Some(x) => self@.current == Some(x@),
                None => self@.current is None,
            },
    {
        proof {
            use_type_invariant(self);
        }
        match self.shown {
            Some(i) => Some(&self.history[i]),
            None => None,
        }
    }

    /// Records the outcome of a scan and returns the reply for the window.
    pub fn complete_scan(&mut self, outcome: Result<ScanRecord, String>) -> (reply: String)
        ensures
            final(self)@ == after_scan(old(self)@, outcome_view(outcome)),
            reply@ == scan_reply(outcome_view(outcome)),
            store_wf(final(self)@),
            outcome matches Err(e) ==> final(self)@ == old(self)@ && reply@ == e@,
            outcome matches Ok(r) ==> final(self)@.history == old(self)@.history.push(r@)
                && final(self)@.current == Some(r@) && reply@.len() == 0,
    {
        proof {
            use_type_invariant(&*self);
            self.lemma_wf();
        }
        let ghost old_history = self@.history;
        match outcome {
            Ok(record) => {
                let ghost rec = record@;
                let mut taken = ScanStore { history: Vec::new(), shown: None };
                std::mem::swap(self, &mut taken);
                let ScanStore { mut history, shown: _ } = taken;
                history.push(record);
                let last = history.len() - 1;
                let fresh = ScanStore { history, shown: Some(last) };
                assert(fresh@.history =~= old_history.push(rec));
                *self = fresh;
                proof {
                    self.lemma_wf();
                }
                String::new()
            },
            Err(e) => e,
        }
    }

    /// Puts the history entry at `index` on display.
    pub fn select_history(&mut self, index: usize)
        requires
            index < old(self)@.history.len(),
        ensures
            final(self)@ == (ScanStoreView {
                history: old(self)@.history,
                current: Some(old(self)@.history[index as int]),
            }),
            store_wf(final(self)@),
    {
        self.shown = Some(index);
        proof {
            self.lemma_wf();
        }
    }
}

/// Every scan outcome keeps the store well formed and only ever adds to the
/// end of the history; a finished scan becomes the last history entry and the
/// one on display.
pub proof fn law_scan_extends_history(s: ScanStoreView, outcome: Result<ScanRecordView, Seq<char>>)
    requires
        store_wf(s),
    ensures
        store_wf(after_scan(s, outcome)),
        after_scan(s, outcome).history.subrange(0, s.history.len() as int) == s.history,
        outcome matches Ok(r) ==> {
            &&& after_scan(s, outcome).history.last() == r
            &&& after_scan(s, outcome).current == Some(r)
            &&& scan_reply(outcome).len() == 0
        },
{
    match outcome {
        Ok(r) => {
            let t = after_scan(s, outcome);
            assert(t.history[t.history.len() - 1] == r);
            assert(t.history.subrange(0, s.history.len() as int) =~= s.history);
        },
        Err(_) => {
            assert(s.history.subrange(0, s.history.len() as int) =~= s.history);
        },
    }
}

/// A failed scan changes neither the history nor the scan on display
/// (whichever one the user had selected stays), and its reply is the error
/// text itself.
pub proof fn law_failed_scan_keeps_store(s: ScanStoreView, e: Seq<char>)
    ensures
        after_scan(s, Err(e)).history == s.history,
        after_scan(s, Err(e)).current == s.current,
        scan_reply(Err(e)) == e,
{
}

} // verus!
