use witui::flex::{compute_flex_layout, MinMaxFlex};
use witui::layout::{FlexFit, LayoutError};

fn item(min: usize, max: usize, flex: usize, fit: FlexFit) -> MinMaxFlex {
    MinMaxFlex::new(min, max, flex, fit)
}

#[test]
fn surplus_of_a_capped_child_goes_to_the_next() {
    let input = vec![item(2, 4, 1, FlexFit::Loose), item(2, 8, 1, FlexFit::Loose)];
    let (total, sizes) = compute_flex_layout(10, &input).unwrap();
    assert_eq!(sizes, vec![4, 6]);
    assert_eq!(total, 10);
}

#[test]
fn child_without_weight_keeps_its_minimum() {
    let input = vec![item(3, 3, 0, FlexFit::Tight)];
    let (total, sizes) = compute_flex_layout(5, &input).unwrap();
    assert_eq!(sizes, vec![3]);
    assert_eq!(total, 3);
}

#[test]
fn minimums_that_do_not_fit_are_insufficient_space() {
    let input = vec![item(3, 9, 1, FlexFit::Loose)];
    assert_eq!(compute_flex_layout(2, &input), Err(LayoutError::InsufficientSpace));
}

#[test]
fn minimums_that_fit_exactly_succeed() {
    let input = vec![item(3, 9, 1, FlexFit::Loose), item(2, 2, 0, FlexFit::Tight)];
    let (total, sizes) = compute_flex_layout(5, &input).unwrap();
    assert_eq!(sizes, vec![3, 2]);
    assert_eq!(total, 5);
}

#[test]
fn no_children_consume_nothing() {
    let input: Vec<MinMaxFlex> = Vec::new();
    let (total, sizes) = compute_flex_layout(7, &input).unwrap();
    assert_eq!(sizes, Vec::<usize>::new());
    assert_eq!(total, 0);
}

#[test]
fn tight_child_grows_past_its_maximum() {
    let input = vec![item(1, 2, 1, FlexFit::Tight)];
    let (total, sizes) = compute_flex_layout(10, &input).unwrap();
    assert_eq!(sizes, vec![10]);
    assert_eq!(total, 10);
}

#[test]
fn loose_children_are_served_before_tight_ones() {
    // The tight child is declared first but served last: the loose child takes
    // half of the six free cells, capped at three, and the tight child all
    // that is left.
    let input = vec![item(1, 1, 1, FlexFit::Tight), item(1, 3, 1, FlexFit::Loose)];
    let (total, sizes) = compute_flex_layout(8, &input).unwrap();
    assert_eq!(sizes, vec![5, 3]);
    assert_eq!(total, 8);
}

#[test]
fn shares_follow_the_weights() {
    let input = vec![item(0, 100, 1, FlexFit::Loose), item(0, 100, 3, FlexFit::Loose)];
    let (total, sizes) = compute_flex_layout(8, &input).unwrap();
    assert_eq!(sizes, vec![2, 6]);
    assert_eq!(total, 8);
}

#[test]
fn halves_round_up_and_the_rest_is_corrected() {
    // 5 * 1 / 2 = 2.5 rounds to 3; the second child gets the 2 that are left.
    let input = vec![item(0, 100, 1, FlexFit::Tight), item(0, 100, 1, FlexFit::Tight)];
    let (total, sizes) = compute_flex_layout(5, &input).unwrap();
    assert_eq!(sizes, vec![3, 2]);
    assert_eq!(total, 5);
}

#[test]
fn thirds_round_to_nearest() {
    // 10 / 3 = 3.33 -> 3, then 7 / 2 = 3.5 -> 4, then 3.
    let input = vec![
        item(0, 100, 1, FlexFit::Tight),
        item(0, 100, 1, FlexFit::Tight),
        item(0, 100, 1, FlexFit::Tight),
    ];
    let (total, sizes) = compute_flex_layout(10, &input).unwrap();
    assert_eq!(sizes, vec![3, 4, 3]);
    assert_eq!(total, 10);
}

#[test]
fn loose_child_with_maximum_below_minimum_stays_at_minimum() {
    let input = vec![item(4, 2, 1, FlexFit::Loose)];
    let (total, sizes) = compute_flex_layout(10, &input).unwrap();
    assert_eq!(sizes, vec![4]);
    assert_eq!(total, 4);
}

#[test]
fn sizes_add_up_and_respect_bounds() {
    let input = vec![
        item(2, 5, 2, FlexFit::Loose),
        item(1, 1, 0, FlexFit::Tight),
        item(3, 4, 1, FlexFit::Tight),
        item(0, 7, 5, FlexFit::Loose),
    ];
    for available in 6..40usize {
        let (total, sizes) = compute_flex_layout(available, &input).unwrap();
        assert_eq!(sizes.iter().sum::<usize>(), total);
        assert!(total <= available);
        for (size, request) in sizes.iter().zip(input.iter()) {
            assert!(*size >= request.min);
            if request.fit == FlexFit::Loose {
                assert!(*size <= request.max);
            }
        }
        assert_eq!(sizes[1], 1);
    }
    assert_eq!(compute_flex_layout(5, &input), Err(LayoutError::InsufficientSpace));
}

#[test]
fn same_input_gives_same_output() {
    let input = vec![item(1, 9, 2, FlexFit::Loose), item(1, 9, 1, FlexFit::Tight)];
    assert_eq!(compute_flex_layout(11, &input), compute_flex_layout(11, &input));
}

#[test]
fn huge_weights_and_sizes_do_not_overflow() {
    let input = vec![
        item(0, usize::MAX, usize::MAX, FlexFit::Tight),
        item(0, usize::MAX, usize::MAX, FlexFit::Tight),
    ];
    let (total, sizes) = compute_flex_layout(usize::MAX, &input).unwrap();
    assert_eq!(total, usize::MAX);
    assert_eq!(sizes[0] + sizes[1], usize::MAX);
    assert_eq!(sizes[0], usize::MAX / 2 + 1);
    let too_much = vec![item(usize::MAX, usize::MAX, 0, FlexFit::Tight), item(1, 1, 0, FlexFit::Tight)];
    assert_eq!(compute_flex_layout(usize::MAX, &too_much), Err(LayoutError::InsufficientSpace));
}
