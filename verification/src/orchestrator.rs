//! Slot-keyed result handling for a council run.
//!
//! Every member dispatch is identified by its slot: its index in the
//! selection. Dispatches complete in arbitrary order; a [`Collector`]
//! accepts exactly one result per slot and hands the full set back in slot
//! order, so completion order never leaks into presentation. A failed
//! dispatch is converted into data here: a clearly labeled placeholder
//! text instead of an error that could abort the run.

use vstd::prelude::*;
use crate::adapter::{ExecutionError, ExecutionErrorView, spec_error_message};
use crate::catalog::Lens;
use crate::prompts::{render_member_prompt, spec_member_prompt};
use crate::text::{append_str, append_u64, chars_to_string, dec_digits};

verus! {

/// Mathematical image of a [`MemberResult`].
pub struct MemberResultView {
    pub slot: int,
    pub name: Seq<char>,
    pub text: Seq<char>,
}

/// The outcome of one member dispatch: the slot it was launched for, the
/// lens name it analyzed under, and its output or placeholder text.
pub struct MemberResult {
    pub slot: usize,
    pub name: String,
    pub text: String,
}

impl View for MemberResult {
    type V = MemberResultView;

    open spec fn view(&self) -> MemberResultView {
        MemberResultView { slot: self.slot as int, name: self.name@, text: self.text@ }
    }
}

/// The views of a sequence of member results.
pub open spec fn result_views(s: Seq<MemberResult>) -> Seq<MemberResultView> {
    s.map_values(|r: MemberResult| r@)
}

/// The placeholder text standing in for a failed dispatch, identifying the
/// member and the failure reason.
pub open spec fn spec_placeholder_text(slot: int, e: ExecutionErrorView) -> Seq<char> {
    "[Member "@ + dec_digits((slot + 1) as nat) + " error: "@ + spec_error_message(e) + "]"@
}

/// Converts the outcome of one dispatch into its member result: the output
/// text on success, the labeled placeholder on any failure. Failures stop
/// here, as data; they never propagate to sibling dispatches.
pub fn member_result(slot: usize, name: String, outcome: Result<String, ExecutionError>) -> (r:
    MemberResult)
    requires
        slot + 1 <= u64::MAX,
    ensures
        r@.slot == slot as int,
        r@.name == name@,
        match outcome {
            Ok(text) => r@.text == text@,
            Err(e) => r@.text == spec_placeholder_text(slot as int, e@),
        },
{
    match outcome {
        Ok(text) => MemberResult { slot, name, text },
        Err(e) => {
            let mut out: Vec<char> = Vec::new();
            append_str(&mut out, "[Member ");
            append_u64(&mut out, (slot as u64) + 1);
            append_str(&mut out, " error: ");
            let msg = crate::adapter::error_message(&e);
            append_str(&mut out, msg.as_str());
            append_str(&mut out, "]");
            proof {
                assert(out@ =~= spec_placeholder_text(slot as int, e@));
            }
            MemberResult { slot, name, text: chars_to_string(&out) }
        },
    }
}

/// How many places of `s` hold a result already.
pub open spec fn count_filled(s: Seq<Option<MemberResultView>>) -> nat
    decreases s.len(),
{
    if s.len() == 0 {
        0
    } else {
        count_filled(s.drop_last()) + if s.last() is Some {
            1nat
        } else {
            0nat
        }
    }
}

proof fn lemma_count_filled_le(s: Seq<Option<MemberResultView>>)
    ensures
        count_filled(s) <= s.len(),
    decreases s.len(),
{
    if s.len() != 0 {
        lemma_count_filled_le(s.drop_last());
    }
}

proof fn lemma_count_filled_update(s: Seq<Option<MemberResultView>>, i: int, r: MemberResultView)
    requires
        0 <= i < s.len(),
        s[i] is None,
    ensures
        count_filled(s.update(i, Some(r))) == count_filled(s) + 1,
    decreases s.len(),
{
    let t = s.update(i, Some(r));
    if i == s.len() - 1 {
        assert(t.drop_last() =~= s.drop_last());
    } else {
        assert(t.drop_last() =~= s.drop_last().update(i, Some(r)));
        lemma_count_filled_update(s.drop_last(), i, r);
    }
}

proof fn lemma_count_filled_all_some(s: Seq<Option<MemberResultView>>)
    requires
        forall|i: int| 0 <= i < s.len() ==> s[i] is Some,
    ensures
        count_filled(s) == s.len(),
    decreases s.len(),
{
    if s.len() != 0 {
        let dl = s.drop_last();
        assert forall|i: int| 0 <= i < dl.len() implies dl[i] is Some by {
            assert(s[i] is Some);
        }
        lemma_count_filled_all_some(dl);
    }
}

proof fn lemma_count_filled_full(s: Seq<Option<MemberResultView>>)
    requires
        count_filled(s) == s.len(),
    ensures
        forall|i: int| 0 <= i < s.len() ==> s[i] is Some,
    decreases s.len(),
{
    if s.len() != 0 {
        lemma_count_filled_le(s.drop_last());
        lemma_count_filled_full(s.drop_last());
        assert forall|i: int| 0 <= i < s.len() implies s[i] is Some by {
            if i < s.len() - 1 {
                assert(s.drop_last()[i] is Some);
            }
        }
    }
}

/// Gathers exactly one member result per slot, in whatever order the
/// dispatches complete.
pub struct Collector {
    slots: Vec<Option<MemberResult>>,
    filled: usize,
}

impl View for Collector {
    type V = Seq<Option<MemberResultView>>;

    closed spec fn view(&self) -> Seq<Option<MemberResultView>> {
        self.slots@.map_values(
            |o: Option<MemberResult>|
                match o {
                    Some(r) => Some(r@),
                    None => None,
                },
        )
    }
}

impl Collector {
    /// A place is only ever filled by a result that carries its slot, and
    /// the fill count matches the places filled.
    pub closed spec fn well_formed(&self) -> bool {
        &&& self.filled == count_filled(self@)
        &&& forall|i: int| 0 <= i < self@.len() && self@[i] is Some ==> self@[i]->0.slot == i
    }

    /// A collector awaiting one result for each of `expected` slots.
    pub fn new(expected: usize) -> (r: Collector)
        ensures
            r.well_formed(),
            r@.len() == expected,
            forall|i: int| 0 <= i < expected ==> r@[i] is None,
    {
        let mut slots: Vec<Option<MemberResult>> = Vec::new();
        let mut k: usize = 0;
        while k < expected
            invariant
                k <= expected,
                slots@.len() == k,
                forall|i: int| 0 <= i < k ==> slots@[i] is None,
                count_filled(
                    slots@.map_values(
                        |o: Option<MemberResult>|
                            match o {
                                Some(r) => Some(r@),
                                None => None,
                            },
                    ),
                ) == 0,
            decreases expected - k,
        {
            let ghost before = slots@.map_values(
                |o: Option<MemberResult>|
                    match o {
                        Some(r) => Some(r@),
                        None => None,
                    },
            );
            slots.push(None);
            proof {
                let after = slots@.map_values(
                    |o: Option<MemberResult>|
                        match o {
                            Some(r) => Some(r@),
                            None => None,
                        },
                );
                assert(after.drop_last() =~= before);
                assert(count_filled(after) == 0);
            }
            k += 1;
        }
        Collector { slots, filled: 0 }
    }

    /// Records the result of one completed dispatch. The result is accepted
    /// exactly when its slot exists and is still empty: a second result for
    /// the same slot, or one for an unknown slot, is turned away.
    pub fn record(&mut self, r: MemberResult) -> (accepted: bool)
        requires
            old(self).well_formed(),
        ensures
            final(self).well_formed(),
            final(self)@.len() == old(self)@.len(),
            accepted <==> (r@.slot < old(self)@.len() && old(self)@[r@.slot] is None),
            accepted ==> final(self)@ == old(self)@.update(r@.slot, Some(r@)),
            !accepted ==> final(self)@ == old(self)@,
    {
        let slot = r.slot;
        if slot < self.slots.len() && self.slots[slot].is_none() {
            proof {
                lemma_count_filled_update(self@, slot as int, r@);
                lemma_count_filled_le(self@.update(slot as int, Some(r@)));
            }
            let ghost before = self@;
            self.slots[slot] = Some(r);
            self.filled = self.filled + 1;
            proof {
                assert(self@ =~= before.update(slot as int, Some(r@)));
            }
            true
        } else {
            false
        }
    }

    /// Whether every slot holds a result, so that collection is complete.
    pub fn is_complete(&self) -> (b: bool)
        requires
            self.well_formed(),
        ensures
            b <==> (forall|i: int| 0 <= i < self@.len() ==> self@[i] is Some),
    {
        proof {
            lemma_count_filled_le(self@);
            if self.filled == self.slots.len() {
                lemma_count_filled_full(self@);
            }
            if forall|i: int| 0 <= i < self@.len() ==> self@[i] is Some {
                lemma_count_filled_all_some(self@);
            }
        }
        self.filled == self.slots.len()
    }

    /// Hands the collected results back in slot order. Requires a complete
    /// collection; the result at position `i` is the one recorded for slot
    /// `i`, whatever order the dispatches completed in.
    pub fn into_ordered(self) -> (r: Vec<MemberResult>)
        requires
            self.well_formed(),
            forall|i: int| 0 <= i < self@.len() ==> self@[i] is Some,
        ensures
            r@.len() == self@.len(),
            forall|i: int| 0 <= i < r@.len() ==> result_views(r@)[i] == self@[i]->0,
            forall|i: int| 0 <= i < r@.len() ==> result_views(r@)[i].slot == i,
    {
        let ghost cv = self@;
        let mut slots = self.slots;
        let mut out_rev: Vec<MemberResult> = Vec::new();
        while slots.len() > 0
            invariant
                slots@.len() + out_rev@.len() == cv.len(),
                forall|i: int|
                    0 <= i < slots@.len() ==> cv[i] == (match slots@[i] {
                        Some(r) => Some(r@),
                        None => None::<MemberResultView>,
                    }),
                forall|j: int|
                    0 <= j < out_rev@.len() ==> result_views(out_rev@)[j] == cv[cv.len() - 1 - j]->0,
                forall|i: int| 0 <= i < cv.len() ==> cv[i] is Some,
            decreases slots@.len(),
        {
            let ghost pre = slots@;
            let ghost out_pre = out_rev@;
            let o = slots.pop();
            proof {
                assert(cv[pre.len() - 1] == (match pre[pre.len() - 1] {
                    Some(r) => Some(r@),
                    None => None::<MemberResultView>,
                }));
                assert(cv[pre.len() - 1] is Some);
            }
            match o {
                Some(Some(r)) => {
                    out_rev.push(r);
                    proof {
                        assert(result_views(out_rev@) =~= result_views(out_pre).push(r@));
                        assert(cv[pre.len() - 1] == Some(r@));
                    }
                },
                _ => {
                    proof {
                        assert(false);
                    }
                },
            }
        }
        let mut out: Vec<MemberResult> = Vec::new();
        while out_rev.len() > 0
            invariant
                out_rev@.len() + out@.len() == cv.len(),
                forall|j: int|
                    0 <= j < out_rev@.len() ==> result_views(out_rev@)[j] == cv[cv.len() - 1 - j]->0,
                forall|i: int| 0 <= i < out@.len() ==> result_views(out@)[i] == cv[i]->0,
                forall|i: int| 0 <= i < cv.len() && cv[i] is Some ==> cv[i]->0.slot == i,
                forall|i: int| 0 <= i < cv.len() ==> cv[i] is Some,
            decreases out_rev@.len(),
        {
            let ghost rev_pre = out_rev@;
            let ghost out_pre = out@;
            let o = out_rev.pop();
            proof {
                assert(result_views(rev_pre)[rev_pre.len() - 1] == cv[cv.len() - rev_pre.len()]->0);
            }
            match o {
                Some(r) => {
                    out.push(r);
                    proof {
                        assert(result_views(out@) =~= result_views(out_pre).push(r@));
                        assert(result_views(out_rev@) =~= result_views(rev_pre).drop_last());
                        assert(r@ == result_views(rev_pre)[rev_pre.len() - 1]);
                    }
                },
                None => {
                    proof {
                        assert(false);
                    }
                },
            }
        }
        out
    }
}

/// One prompt per selected lens, in slot order: slot `i` analyzes under
/// lens `i` of the selection, and every prompt names the full member count.
pub fn plan_prompts(selection: &Vec<Lens>, task: &str) -> (r: Vec<String>)
    ensures
        r@.len() == selection@.len(),
        forall|i: int|
            0 <= i < r@.len() ==> r@[i]@ == spec_member_prompt(
                selection@[i]@,
                task@,
                selection@.len() as nat,
            ),
{
    let count = selection.len();
    let mut prompts: Vec<String> = Vec::new();
    let mut i: usize = 0;
    while i < selection.len()
        invariant
            i <= selection@.len(),
            count == selection@.len(),
            prompts@.len() == i,
            forall|j: int|
                0 <= j < i ==> prompts@[j]@ == spec_member_prompt(
                    selection@[j]@,
                    task@,
                    selection@.len() as nat,
                ),
        decreases selection@.len() - i,
    {
        let p = render_member_prompt(&selection[i], task, count);
        prompts.push(p);
        i += 1;
    }
    prompts
}

} // verus!
