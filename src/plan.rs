use vstd::prelude::*;

verus! {

/// The instructions that carry out one swap, grouped by stage.
pub struct SwapInstructions<I> {
    pub compute_budget_instructions: Vec<I>,
    pub setup_instructions: Vec<I>,
    pub swap_instruction: I,
    pub cleanup_instruction: Option<I>,
    pub other_instructions: Vec<I>,
}

/// The cleanup stage: its one instruction, or nothing.
pub open spec fn cleanup_stage<I>(c: Option<I>) -> Seq<I> {
    match c {
        Some(i) => seq![i],
        None => Seq::empty(),
    }
}

/// The fixed stage order: compute budget, setup, the swap, the tip, the
/// cleanup if any, then the trailing instructions.
pub open spec fn ordered_plan<I>(s: SwapInstructions<I>, tip: I) -> Seq<I> {
    s.compute_budget_instructions@ + s.setup_instructions@ + seq![s.swap_instruction, tip]
        + cleanup_stage(s.cleanup_instruction) + s.other_instructions@
}

/// Lays out the instructions of one transaction in the fixed stage order.
pub fn build_instructions<I>(swap_instructions: SwapInstructions<I>, tip_instruction: I) -> (r: Vec<I>)
    ensures
        r@ == ordered_plan(swap_instructions, tip_instruction),
{
    let ghost s = swap_instructions;
    let ghost tip = tip_instruction;
    let SwapInstructions {
        compute_budget_instructions: mut compute,
        setup_instructions: mut setup,
        swap_instruction,
        cleanup_instruction,
        other_instructions: mut other,
    } = swap_instructions;
    let mut ixs: Vec<I> = Vec::new();
    ixs.append(&mut compute);
    ixs.append(&mut setup);
    ixs.push(swap_instruction);
    ixs.push(tip_instruction);
    match cleanup_instruction {
        Some(c) => ixs.push(c),
        None => {},
    }
    ixs.append(&mut other);
    assert(ixs@ =~= ordered_plan(s, tip));
    ixs
}

/// Whatever optional stages are present, the tip comes right after the swap,
/// and the cleanup, when there is one, right after the tip.
pub proof fn lemma_tip_follows_swap<I>(s: SwapInstructions<I>, tip: I)
    ensures
        ({
            let p = ordered_plan(s, tip);
            let k = (s.compute_budget_instructions@.len() + s.setup_instructions@.len()) as int;
            &&& p[k] == s.swap_instruction
            &&& p[k + 1] == tip
            &&& s.cleanup_instruction matches Some(c) ==> p[k + 2] == c
            &&& p.len() == k + 2 + cleanup_stage(s.cleanup_instruction).len()
                + s.other_instructions@.len()
        }),
{
}

/// Laying out the same stages with the same tip twice gives the same
/// instruction order.
pub proof fn lemma_build_deterministic<I>(s1: SwapInstructions<I>, t1: I, s2: SwapInstructions<I>, t2: I)
    requires
        s1.compute_budget_instructions@ == s2.compute_budget_instructions@,
        s1.setup_instructions@ == s2.setup_instructions@,
        s1.swap_instruction == s2.swap_instruction,
        s1.cleanup_instruction == s2.cleanup_instruction,
        s1.other_instructions@ == s2.other_instructions@,
        t1 == t2,
    ensures
        ordered_plan(s1, t1) == ordered_plan(s2, t2),
{
}

} // verus!
