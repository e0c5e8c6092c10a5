//! Prompt rendering: pure text construction, pinned down exactly.
//!
//! One renderer produces the prompt a single member analyzes under; the
//! other reduces a complete, slot-ordered set of member results into the
//! synthesis prompt. Both are specified to the character.

use vstd::prelude::*;
use crate::catalog::LensView;
use crate::catalog::Lens;
use crate::orchestrator::{MemberResult, MemberResultView, result_views};
use crate::text::{append_str, append_u64, chars_to_string, dec_digits, to_upper, upper_of};

verus! {

/// The exact prompt for one member: the member count, the lens's full
/// constraint text verbatim, the task verbatim, and output instructions
/// tied to the lens's name.
pub open spec fn spec_member_prompt(l: LensView, task: Seq<char>, count: nat) -> Seq<char> {
    "You are a council member analyzing with a specific constraint. There are "@ + dec_digits(
        count,
    ) + " council members, each with different orthogonal constraints.\n\n"@ + l.prompt
        + "\n\nYOUR TASK:\n"@ + task
        + "\n\nYOUR OUTPUT REQUIREMENTS:\n1. Executive summary (2-3 sentences) from your constraint's perspective ONLY\n2. Detailed analysis with specific insights labeled ["@
        + l.name
        + "]\n3. Recommendations with file paths and line numbers where applicable\n4. Risks and trade-offs within your constraint area\n\nQuality over quantity - 5 constraint-specific insights > 20 generic observations.\nIf your analysis could come from any other constraint, you're doing it WRONG."@
}

/// Renders the prompt one member analyzes under.
pub fn render_member_prompt(lens: &Lens, task: &str, count: usize) -> (r: String)
    ensures
        r@ == spec_member_prompt(lens@, task@, count as nat),
{
    let mut out: Vec<char> = Vec::new();
    append_str(
        &mut out,
        "You are a council member analyzing with a specific constraint. There are ",
    );
    append_u64(&mut out, count as u64);
    append_str(&mut out, " council members, each with different orthogonal constraints.\n\n");
    append_str(&mut out, lens.prompt);
    append_str(&mut out, "\n\nYOUR TASK:\n");
    append_str(&mut out, task);
    append_str(
        &mut out,
        "\n\nYOUR OUTPUT REQUIREMENTS:\n1. Executive summary (2-3 sentences) from your constraint's perspective ONLY\n2. Detailed analysis with specific insights labeled [",
    );
    append_str(&mut out, lens.name);
    append_str(
        &mut out,
        "]\n3. Recommendations with file paths and line numbers where applicable\n4. Risks and trade-offs within your constraint area\n\nQuality over quantity - 5 constraint-specific insights > 20 generic observations.\nIf your analysis could come from any other constraint, you're doing it WRONG.",
    );
    proof {
        assert(out@ =~= spec_member_prompt(lens@, task@, count as nat));
    }
    chars_to_string(&out)
}

/// The heavy rule that frames each member's block in the synthesis prompt.
pub open spec fn spec_sep_line() -> Seq<char> {
    "═══════════════════════════════════════════════════════════════"@
}

/// One member's block in the synthesis prompt: a framed header carrying
/// the one-based member number and the lens name in upper case, then the
/// member's full text.
pub open spec fn spec_block(r: MemberResultView) -> Seq<char> {
    spec_sep_line() + "\nMEMBER #"@ + dec_digits((r.slot + 1) as nat) + ": "@ + upper_of(r.name)
        + "\n"@ + spec_sep_line() + "\n\n"@ + r.text
}

/// All members' blocks in slot order, joined by blank lines.
pub open spec fn spec_blocks(rs: Seq<MemberResultView>) -> Seq<char>
    decreases rs.len(),
{
    if rs.len() == 0 {
        Seq::empty()
    } else if rs.len() == 1 {
        spec_block(rs[0])
    } else {
        spec_blocks(rs.drop_last()) + "\n\n"@ + spec_block(rs.last())
    }
}

/// What precedes the analyses in the synthesis prompt: the result count
/// and the original task.
pub open spec fn spec_synthesis_head(count: nat, task: Seq<char>) -> Seq<char> {
    "You are a master synthesizer analyzing insights from "@ + dec_digits(count)
        + " council members who each analyzed through different constraints.\n\nYOUR TASK:\nSynthesize the following analyses into ONE coherent, actionable recommendation.\n\nORIGINAL TASK:\n"@
        + task + "\n\nCOUNCIL ANALYSES:\n"@
}

/// What follows the analyses in the synthesis prompt: the instructions
/// for the synthesized recommendation.
pub open spec fn spec_synthesis_tail() -> Seq<char> {
    "\n\nYOUR SYNTHESIS REQUIREMENTS:\n\n1. EXECUTIVE SUMMARY (3-4 sentences)\n   - What's the core issue?\n   - What's the recommended solution?\n   - What's the expected impact?\n\n2. CONSOLIDATED FINDINGS\n   - Identify common themes across multiple constraints\n   - Highlight unique insights from specific constraints\n   - Resolve any conflicting recommendations (explain which to prioritize and why)\n\n3. PRIORITIZED ACTION PLAN\n   - List specific changes in priority order (P0/P1/P2)\n   - For each item: file:line, what to change, why, expected impact\n   - Include concrete code snippets where applicable\n\n4. RISKS & TRADE-OFFS\n   - What are we trading off?\n   - What could go wrong?\n   - How to mitigate?\n\n5. IMPLEMENTATION ROADMAP\n   - What order to tackle changes?\n   - What dependencies exist?\n\nBe concise but specific. The goal is ONE clear path forward, not multiple options.\nFocus on ACTIONABLE recommendations with clear next steps."@
}

/// The exact synthesis prompt over a slot-ordered result set: the result
/// count, the original task, every member's attributed block in slot
/// order, and the synthesis instructions.
pub open spec fn spec_synthesis_prompt(rs: Seq<MemberResultView>, task: Seq<char>) -> Seq<char> {
    spec_synthesis_head(rs.len(), task) + spec_blocks(rs) + spec_synthesis_tail()
}

/// Appends one member's block.
fn append_block(out: &mut Vec<char>, r: &MemberResult)
    requires
        r@.slot + 1 <= u64::MAX,
    ensures
        final(out)@ == old(out)@ + spec_block(r@),
{
    append_str(
        out,
        "═══════════════════════════════════════════════════════════════",
    );
    append_str(out, "\nMEMBER #");
    append_u64(out, (r.slot as u64) + 1);
    append_str(out, ": ");
    let upper = to_upper(r.name.as_str());
    append_str(out, upper.as_str());
    append_str(out, "\n");
    append_str(
        out,
        "═══════════════════════════════════════════════════════════════",
    );
    append_str(out, "\n\n");
    append_str(out, r.text.as_str());
    proof {
        assert(out@ =~= old(out)@ + spec_block(r@));
    }
}

/// Renders the synthesis prompt over a complete, slot-ordered result set.
pub fn render_synthesis_prompt(results: &Vec<MemberResult>, task: &str) -> (r: String)
    requires
        forall|i: int| 0 <= i < results@.len() ==> #[trigger] results@[i]@.slot + 1 <= u64::MAX,
    ensures
        r@ == spec_synthesis_prompt(result_views(results@), task@),
{
    let ghost rs = result_views(results@);
    let mut out: Vec<char> = Vec::new();
    append_str(&mut out, "You are a master synthesizer analyzing insights from ");
    append_u64(&mut out, results.len() as u64);
    append_str(
        &mut out,
        " council members who each analyzed through different constraints.\n\nYOUR TASK:\nSynthesize the following analyses into ONE coherent, actionable recommendation.\n\nORIGINAL TASK:\n",
    );
    append_str(&mut out, task);
    append_str(&mut out, "\n\nCOUNCIL ANALYSES:\n");
    let ghost head = out@;
    let mut i: usize = 0;
    while i < results.len()
        invariant
            i <= results@.len(),
            rs == result_views(results@),
            rs.len() == results@.len(),
            forall|k: int| 0 <= k < results@.len() ==> #[trigger] results@[k]@.slot + 1 <= u64::MAX,
            out@ == head + spec_blocks(rs.take(i as int)),
        decreases results@.len() - i,
    {
        if i > 0 {
            append_str(&mut out, "\n\n");
        }
        append_block(&mut out, &results[i]);
        proof {
            assert(rs.take(i + 1).drop_last() =~= rs.take(i as int));
            assert(rs.take(i + 1).last() == rs[i as int]);
            if i == 0 {
                assert(spec_blocks(rs.take(1)) == spec_block(rs[0]));
            } else {
                assert(spec_blocks(rs.take(i + 1)) == spec_blocks(rs.take(i as int)) + "\n\n"@
                    + spec_block(rs[i as int]));
            }
            assert(out@ =~= head + spec_blocks(rs.take(i + 1)));
        }
        i += 1;
    }
    proof {
        assert(rs.take(rs.len() as int) =~= rs);
    }
    append_str(
        &mut out,
        "\n\nYOUR SYNTHESIS REQUIREMENTS:\n\n1. EXECUTIVE SUMMARY (3-4 sentences)\n   - What's the core issue?\n   - What's the recommended solution?\n   - What's the expected impact?\n\n2. CONSOLIDATED FINDINGS\n   - Identify common themes across multiple constraints\n   - Highlight unique insights from specific constraints\n   - Resolve any conflicting recommendations (explain which to prioritize and why)\n\n3. PRIORITIZED ACTION PLAN\n   - List specific changes in priority order (P0/P1/P2)\n   - For each item: file:line, what to change, why, expected impact\n   - Include concrete code snippets where applicable\n\n4. RISKS & TRADE-OFFS\n   - What are we trading off?\n   - What could go wrong?\n   - How to mitigate?\n\n5. IMPLEMENTATION ROADMAP\n   - What order to tackle changes?\n   - What dependencies exist?\n\nBe concise but specific. The goal is ONE clear path forward, not multiple options.\nFocus on ACTIONABLE recommendations with clear next steps.",
    );
    proof {
        assert(out@ =~= spec_synthesis_prompt(rs, task@));
    }
    chars_to_string(&out)
}

/// Where member `i`'s block begins inside the joined analyses text.
pub open spec fn block_offset(rs: Seq<MemberResultView>, i: int) -> int {
    spec_blocks(rs.take(i)).len() + if i == 0 {
        0int
    } else {
        2int
    }
}

/// The joined analyses text carries the members in slot order: each
/// member's block - its lens name and its full text - stands as one
/// contiguous segment at its offset, and consecutive offsets differ by
/// exactly the block before plus the join, so the segments are disjoint
/// and ordered by slot, however the dispatches completed.
proof fn lemma_subrange_of_prefix(a: Seq<char>, b: Seq<char>, off: int, l: int)
    requires
        0 <= off,
        0 <= l,
        off + l <= a.len(),
    ensures
        (a + b).subrange(off, off + l) == a.subrange(off, off + l),
{
    assert((a + b).subrange(off, off + l) =~= a.subrange(off, off + l));
}

proof fn lemma_subrange_at_end(a: Seq<char>, b: Seq<char>)
    ensures
        (a + b).subrange(a.len() as int, a.len() + b.len() as int) == b,
{
    assert((a + b).subrange(a.len() as int, a.len() + b.len() as int) =~= b);
}

/// How the joined text of `rs` extends the joined text of all but its
/// last member.
proof fn lemma_blocks_step(rs: Seq<MemberResultView>)
    requires
        rs.len() >= 1,
    ensures
        rs.len() == 1 ==> spec_blocks(rs) == spec_block(rs[0]),
        rs.len() > 1 ==> spec_blocks(rs) == (spec_blocks(rs.drop_last()) + "\n\n"@) + spec_block(
            rs[rs.len() - 1],
        ),
{
    reveal_strlit("\n\n");
}

proof fn lemma_block_positions(rs: Seq<MemberResultView>)
    ensures
        forall|i: int|
            0 <= i < rs.len() ==> 0 <= #[trigger] block_offset(rs, i) && block_offset(rs, i)
                + spec_block(rs[i]).len() <= spec_blocks(rs).len(),
        forall|i: int|
            0 <= i < rs.len() ==> spec_blocks(rs).subrange(
                #[trigger] block_offset(rs, i),
                block_offset(rs, i) + spec_block(rs[i]).len() as int,
            ) == spec_block(rs[i]),
    decreases rs.len(),
{
    reveal_strlit("\n\n");
    if rs.len() == 0 {
        return ;
    }
    let dl = rs.drop_last();
    lemma_block_positions(dl);
    lemma_blocks_step(rs);
    let last = rs.len() - 1;
    assert(rs.take(last) =~= dl);
    if rs.len() == 1 {
        assert(rs.take(0) =~= Seq::<MemberResultView>::empty());
        assert(block_offset(rs, 0) == 0);
        assert(spec_blocks(rs).subrange(0, spec_block(rs[0]).len() as int) =~= spec_block(rs[0]));
    } else {
        let head = spec_blocks(dl) + "\n\n"@;
        lemma_subrange_at_end(head, spec_block(rs[last]));
        assert(block_offset(rs, last) == head.len());
        assert forall|i: int| 0 <= i < rs.len() implies 0 <= #[trigger] block_offset(rs, i)
            && block_offset(rs, i) + spec_block(rs[i]).len() <= spec_blocks(rs).len()
            && spec_blocks(rs).subrange(
            block_offset(rs, i),
            block_offset(rs, i) + spec_block(rs[i]).len() as int,
        ) == spec_block(rs[i]) by {
            if i < last {
                assert(rs.take(i) =~= dl.take(i));
                assert(block_offset(rs, i) == block_offset(dl, i));
                let off = block_offset(dl, i);
                let l = spec_block(dl[i]).len() as int;
                lemma_subrange_of_prefix(head, spec_block(rs[last]), off, l);
                lemma_subrange_of_prefix(spec_blocks(dl), "\n\n"@, off, l);
            }
        }
    }
}

proof fn lemma_offsets_adjacent(rs: Seq<MemberResultView>)
    ensures
        forall|i: int|
            1 <= i < rs.len() ==> #[trigger] block_offset(rs, i) == block_offset(rs, i - 1)
                + spec_block(rs[i - 1]).len() + 2,
{
    reveal_strlit("\n\n");
    assert forall|i: int| 1 <= i < rs.len() implies #[trigger] block_offset(rs, i) == block_offset(
        rs,
        i - 1,
    ) + spec_block(rs[i - 1]).len() + 2 by {
        let t = rs.take(i);
        lemma_blocks_step(t);
        assert(t.drop_last() =~= rs.take(i - 1));
        assert(t[t.len() - 1] == rs[i - 1]);
    }
}

/// The synthesis prompt carries the joined analyses text verbatim, right
/// after its head; together with [`lemma_blocks_in_slot_order`] this
/// places every member's block inside the rendered prompt, in slot order.
pub proof fn lemma_synthesis_prompt_carries_blocks(rs: Seq<MemberResultView>, task: Seq<char>) -> (
    off: int)
    ensures
        0 <= off,
        off + spec_blocks(rs).len() <= spec_synthesis_prompt(rs, task).len(),
        spec_synthesis_prompt(rs, task).subrange(off, off + spec_blocks(rs).len() as int)
            == spec_blocks(rs),
{
    let head = spec_synthesis_head(rs.len(), task);
    assert(spec_synthesis_prompt(rs, task).subrange(
        head.len() as int,
        head.len() + spec_blocks(rs).len() as int,
    ) =~= spec_blocks(rs));
    head.len() as int
}

/// The joined analyses text carries the members in slot order: each
/// member's block - its framed lens name and its full text - stands as
/// one contiguous segment at its offset, and consecutive offsets differ
/// by exactly the block before plus the join, so the segments are
/// disjoint and ordered by slot, however the dispatches completed.
pub proof fn lemma_blocks_in_slot_order(rs: Seq<MemberResultView>)
    ensures
        forall|i: int|
            0 <= i < rs.len() ==> 0 <= #[trigger] block_offset(rs, i) && block_offset(rs, i)
                + spec_block(rs[i]).len() <= spec_blocks(rs).len(),
        forall|i: int|
            0 <= i < rs.len() ==> spec_blocks(rs).subrange(
                #[trigger] block_offset(rs, i),
                block_offset(rs, i) + spec_block(rs[i]).len() as int,
            ) == spec_block(rs[i]),
        forall|i: int|
            1 <= i < rs.len() ==> #[trigger] block_offset(rs, i) == block_offset(rs, i - 1)
                + spec_block(rs[i - 1]).len() + 2,
{
    lemma_block_positions(rs);
    lemma_offsets_adjacent(rs);
}

} // verus!
