use solana_arb::plan::{build_instructions, SwapInstructions};

fn stages(cleanup: Option<u32>, other: Vec<u32>, setup: Vec<u32>) -> SwapInstructions<u32> {
    SwapInstructions {
        compute_budget_instructions: vec![1, 2],
        setup_instructions: setup,
        swap_instruction: 10,
        cleanup_instruction: cleanup,
        other_instructions: other,
    }
}

#[test]
fn stages_come_in_fixed_order() {
    let ixs = build_instructions(stages(Some(30), vec![40, 41], vec![5]), 20);
    assert_eq!(ixs, vec![1, 2, 5, 10, 20, 30, 40, 41]);
}

#[test]
fn tip_follows_swap_for_every_optional_stage() {
    for cleanup in [None, Some(30)] {
        for other in [vec![], vec![40]] {
            for setup in [vec![], vec![5, 6]] {
                let k = 2 + setup.len();
                let has_cleanup = cleanup.is_some();
                let ixs = build_instructions(stages(cleanup, other.clone(), setup), 20);
                assert_eq!(ixs[k], 10);
                assert_eq!(ixs[k + 1], 20);
                if has_cleanup {
                    assert_eq!(ixs[k + 2], 30);
                }
                assert_eq!(ixs.len(), k + 2 + usize::from(has_cleanup) + other.len());
            }
        }
    }
}

#[test]
fn missing_cleanup_is_omitted() {
    let ixs = build_instructions(stages(None, vec![], vec![]), 20);
    assert_eq!(ixs, vec![1, 2, 10, 20]);
}

#[test]
fn assembling_twice_gives_the_same_order() {
    let a = build_instructions(stages(Some(30), vec![40], vec![5]), 20);
    let b = build_instructions(stages(Some(30), vec![40], vec![5]), 20);
    assert_eq!(a, b);
}
