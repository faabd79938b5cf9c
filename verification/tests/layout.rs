use diffur::layout::{
    arrange, frame_layout, frame_rows, panel_columns, solved_layout, Area, Extent, FrameLayout,
};

fn area(x: u16, y: u16, width: u16, height: u16) -> Area {
    Area { x, y, width, height }
}

fn inside(part: Area, bounds: Area) -> bool {
    bounds.x <= part.x
        && bounds.y <= part.y
        && u32::from(part.x) + u32::from(part.width)
            <= u32::from(bounds.x) + u32::from(bounds.width)
        && u32::from(part.y) + u32::from(part.height)
            <= u32::from(bounds.y) + u32::from(bounds.height)
}

#[test]
fn rows_are_one_line_and_the_rest() {
    assert_eq!(frame_rows(), vec![Extent::Length(1), Extent::Min(1)]);
}

#[test]
fn columns_are_two_halves() {
    assert_eq!(panel_columns(), vec![Extent::Percentage(50), Extent::Percentage(50)]);
}

#[test]
fn clip_keeps_an_area_that_fits() {
    let bounds = area(0, 0, 80, 24);
    assert_eq!(area(0, 0, 80, 24).clip(bounds), area(0, 0, 80, 24));
    assert_eq!(area(3, 4, 10, 5).clip(bounds), area(3, 4, 10, 5));
    assert_eq!(area(79, 23, 1, 1).clip(bounds), area(79, 23, 1, 1));
}

#[test]
fn clip_cuts_what_sticks_out() {
    let bounds = area(10, 10, 20, 10);
    assert_eq!(area(0, 0, 15, 15).clip(bounds), area(10, 10, 5, 5));
    assert_eq!(area(25, 15, 20, 20).clip(bounds), area(25, 15, 5, 5));
    assert_eq!(area(0, 12, 100, 2).clip(bounds), area(10, 12, 20, 2));
    assert_eq!(area(12, 0, 2, 100).clip(bounds), area(12, 10, 2, 10));
}

#[test]
fn clip_of_an_area_that_misses_is_empty_on_the_nearest_edge() {
    let bounds = area(10, 10, 20, 10);
    assert_eq!(area(0, 0, 5, 5).clip(bounds), area(10, 10, 0, 0));
    assert_eq!(area(40, 40, 5, 5).clip(bounds), area(30, 20, 0, 0));
    assert_eq!(area(40, 12, 5, 5).clip(bounds), area(30, 12, 0, 5));
    assert_eq!(area(12, 0, 5, 5).clip(bounds), area(12, 10, 5, 0));
}

#[test]
fn clip_does_not_overflow_at_the_far_corner() {
    let bounds = area(65535, 65535, 65535, 65535);
    assert_eq!(area(65535, 65535, 10, 10).clip(bounds), area(65535, 65535, 10, 10));
    assert_eq!(area(0, 0, 65535, 65535).clip(bounds), area(65535, 65535, 0, 0));
    let all = area(0, 0, 65535, 65535);
    assert_eq!(area(65530, 65530, 65535, 65535).clip(all), area(65530, 65530, 5, 5));
}

#[test]
fn clip_to_empty_bounds_is_empty() {
    assert_eq!(area(0, 0, 80, 24).clip(area(5, 5, 0, 0)), area(5, 5, 0, 0));
}

#[test]
fn standard_terminal_is_split_into_help_and_two_halves() {
    assert_eq!(
        frame_layout(area(0, 0, 80, 24)),
        FrameLayout {
            help: area(0, 0, 80, 1),
            left: area(0, 1, 40, 23),
            right: area(40, 1, 40, 23),
        }
    );
}

#[test]
fn layout_follows_the_origin_of_the_area() {
    assert_eq!(
        frame_layout(area(5, 3, 100, 40)),
        FrameLayout {
            help: area(5, 3, 100, 1),
            left: area(5, 4, 50, 39),
            right: area(55, 4, 50, 39),
        }
    );
}

#[test]
fn layout_fits_every_small_terminal() {
    for width in 0u16..40 {
        for height in 0u16..12 {
            let bounds = area(0, 0, width, height);
            let layout = frame_layout(bounds);
            assert!(inside(layout.help, bounds));
            assert!(inside(layout.left, bounds));
            assert!(inside(layout.right, bounds));
            assert_eq!((layout.help.x, layout.help.width), (0, width));
            assert_eq!(layout.left.y, layout.right.y);
            assert_eq!(layout.left.height, layout.right.height);
        }
    }
}

#[test]
fn panels_lie_side_by_side_below_the_help_bar() {
    for width in 2u16..60 {
        for height in 2u16..20 {
            let layout = frame_layout(area(0, 0, width, height));
            assert_eq!(layout.help, area(0, 0, width, 1));
            assert_eq!(layout.left.y, 1);
            assert_eq!(layout.left.height, height - 1);
            assert_eq!(layout.left.x, 0);
            assert_eq!(layout.right.x, layout.left.width);
            assert_eq!(layout.left.width + layout.right.width, width);
            assert!(layout.left.width.abs_diff(layout.right.width) <= 1);
        }
    }
}

#[test]
fn same_area_gives_the_same_layout() {
    for width in [0u16, 1, 7, 80, 133] {
        for height in [0u16, 1, 2, 24, 50] {
            let bounds = area(2, 1, width, height);
            assert_eq!(frame_layout(bounds), frame_layout(bounds));
        }
    }
}

fn standard() -> FrameLayout {
    FrameLayout { help: area(0, 0, 80, 1), left: area(0, 1, 40, 23), right: area(40, 1, 40, 23) }
}

#[test]
fn solver_cuts_the_standard_terminal() {
    assert_eq!(solved_layout(area(0, 0, 80, 24)), standard());
}

#[test]
fn solver_gives_the_left_panel_the_odd_column() {
    assert_eq!(
        solved_layout(area(0, 0, 81, 24)),
        FrameLayout {
            help: area(0, 0, 81, 1),
            left: area(0, 1, 41, 23),
            right: area(41, 1, 40, 23),
        }
    );
}

#[test]
fn solver_gives_a_single_row_to_the_panels() {
    assert_eq!(
        solved_layout(area(0, 0, 10, 1)),
        FrameLayout { help: area(0, 0, 10, 0), left: area(0, 0, 5, 1), right: area(5, 0, 5, 1) }
    );
}

#[test]
fn solver_answer_is_a_proper_frame_and_is_the_one_used() {
    for (x, y) in [(0u16, 0u16), (3, 2)] {
        for width in (0u16..24).chain([79, 80, 81, 133]) {
            for height in (0u16..6).chain([24, 25]) {
                let bounds = area(x, y, width, height);
                let solved = solved_layout(bounds);
                assert!(solved.is_balanced(bounds));
                assert_eq!(frame_layout(bounds), solved);
                assert_eq!(solved, FrameLayout::even(bounds));
            }
        }
    }
}

#[test]
fn arrange_keeps_answers_that_lie_inside() {
    assert_eq!(
        arrange(
            area(0, 0, 80, 24),
            area(0, 0, 80, 1),
            area(0, 1, 80, 23),
            area(0, 1, 40, 23),
            area(40, 1, 40, 23),
        ),
        standard()
    );
}

#[test]
fn arrange_takes_the_parts_as_they_are_given() {
    assert_eq!(
        arrange(
            area(0, 0, 80, 24),
            area(0, 0, 80, 3),
            area(0, 3, 80, 21),
            area(0, 3, 10, 21),
            area(10, 3, 70, 21),
        ),
        FrameLayout { help: area(0, 0, 80, 3), left: area(0, 3, 10, 21), right: area(10, 3, 70, 21) }
    );
}

#[test]
fn arrange_clips_rows_to_the_area_and_columns_to_the_second_row() {
    assert_eq!(
        arrange(
            area(10, 10, 20, 10),
            area(10, 5, 20, 6),
            area(10, 11, 20, 30),
            area(0, 11, 20, 9),
            area(20, 0, 50, 50),
        ),
        FrameLayout {
            help: area(10, 10, 20, 1),
            left: area(10, 11, 10, 9),
            right: area(20, 11, 10, 9),
        }
    );
}

#[test]
fn even_split_of_the_standard_terminal() {
    assert_eq!(FrameLayout::even(area(0, 0, 80, 24)), standard());
}

#[test]
fn even_split_gives_the_left_panel_the_odd_column() {
    assert_eq!(
        FrameLayout::even(area(2, 3, 7, 5)),
        FrameLayout { help: area(2, 3, 7, 1), left: area(2, 4, 4, 4), right: area(6, 4, 3, 4) }
    );
}

#[test]
fn even_split_of_small_areas() {
    assert_eq!(
        FrameLayout::even(area(0, 0, 0, 0)),
        FrameLayout { help: area(0, 0, 0, 0), left: area(0, 0, 0, 0), right: area(0, 0, 0, 0) }
    );
    assert_eq!(
        FrameLayout::even(area(0, 0, 1, 1)),
        FrameLayout { help: area(0, 0, 1, 0), left: area(0, 0, 1, 1), right: area(1, 0, 0, 1) }
    );
    assert_eq!(
        FrameLayout::even(area(0, 0, 2, 2)),
        FrameLayout { help: area(0, 0, 2, 1), left: area(0, 1, 1, 1), right: area(1, 1, 1, 1) }
    );
}

#[test]
fn even_split_at_the_edge_of_the_coordinates() {
    assert_eq!(
        FrameLayout::even(area(65533, 65533, 2, 2)),
        FrameLayout {
            help: area(65533, 65533, 2, 1),
            left: area(65533, 65534, 1, 1),
            right: area(65534, 65534, 1, 1),
        }
    );
    assert_eq!(
        FrameLayout::even(area(60000, 60000, 10000, 10000)),
        FrameLayout {
            help: area(60000, 60000, 10000, 0),
            left: area(60000, 60000, 0, 0),
            right: area(60000, 60000, 0, 0),
        }
    );
}

#[test]
fn proper_frame_is_recognised() {
    let bounds = area(0, 0, 80, 24);
    assert!(standard().is_balanced(bounds));
    let odd = area(0, 0, 81, 24);
    let left_wider =
        FrameLayout { help: area(0, 0, 81, 1), left: area(0, 1, 41, 23), right: area(41, 1, 40, 23) };
    let right_wider =
        FrameLayout { help: area(0, 0, 81, 1), left: area(0, 1, 40, 23), right: area(40, 1, 41, 23) };
    assert!(left_wider.is_balanced(odd));
    assert!(!right_wider.is_balanced(odd));
}

#[test]
fn improper_frames_are_recognised() {
    let bounds = area(0, 0, 80, 24);
    let whole = FrameLayout { help: bounds, left: bounds, right: bounds };
    let swapped = FrameLayout { left: standard().right, right: standard().left, ..standard() };
    let tall_help =
        FrameLayout { help: area(0, 0, 80, 2), left: area(0, 2, 40, 22), right: area(40, 2, 40, 22) };
    let uneven =
        FrameLayout { help: area(0, 0, 80, 1), left: area(0, 1, 30, 23), right: area(30, 1, 50, 23) };
    let gap =
        FrameLayout { help: area(0, 0, 80, 1), left: area(0, 1, 39, 23), right: area(40, 1, 40, 23) };
    let short =
        FrameLayout { help: area(0, 0, 80, 1), left: area(0, 1, 40, 22), right: area(40, 1, 40, 22) };
    let outside =
        FrameLayout { help: area(0, 0, 80, 1), left: area(0, 1, 40, 23), right: area(40, 1, 41, 23) };
    let empty = FrameLayout { help: area(0, 0, 80, 0), left: area(0, 0, 0, 0), right: area(0, 0, 0, 0) };
    for layout in [whole, swapped, tall_help, uneven, gap, short, outside, empty] {
        assert!(!layout.is_balanced(bounds));
    }
}

#[test]
fn small_area_needs_only_a_frame_that_fits() {
    let bounds = area(0, 0, 10, 1);
    let empty = FrameLayout { help: area(0, 0, 10, 0), left: area(0, 0, 0, 0), right: area(0, 0, 0, 0) };
    assert!(empty.is_balanced(bounds));
    let overlapping =
        FrameLayout { help: area(0, 0, 10, 1), left: area(0, 0, 5, 1), right: area(5, 0, 5, 1) };
    assert!(!overlapping.is_balanced(bounds));
}

#[test]
fn settle_keeps_a_proper_frame() {
    let bounds = area(0, 0, 81, 24);
    let left_wider =
        FrameLayout { help: area(0, 0, 81, 1), left: area(0, 1, 41, 23), right: area(41, 1, 40, 23) };
    assert_eq!(left_wider.settle(bounds), left_wider);
    assert_eq!(standard().settle(area(0, 0, 80, 24)), standard());
    let single_row = area(0, 0, 10, 1);
    let empty = FrameLayout { help: area(0, 0, 10, 0), left: area(0, 0, 0, 0), right: area(0, 0, 0, 0) };
    assert_eq!(empty.settle(single_row), empty);
}

#[test]
fn settle_moves_the_odd_column_to_the_left_panel() {
    let bounds = area(0, 0, 81, 24);
    let right_wider =
        FrameLayout { help: area(0, 0, 81, 1), left: area(0, 1, 40, 23), right: area(40, 1, 41, 23) };
    assert_eq!(
        right_wider.settle(bounds),
        FrameLayout {
            help: area(0, 0, 81, 1),
            left: area(0, 1, 41, 23),
            right: area(41, 1, 40, 23),
        }
    );
}

#[test]
fn settle_replaces_an_improper_frame_by_the_even_split() {
    let bounds = area(0, 0, 80, 24);
    let whole = FrameLayout { help: bounds, left: bounds, right: bounds };
    assert_eq!(whole.settle(bounds), standard());
    let swapped = FrameLayout { left: standard().right, right: standard().left, ..standard() };
    assert_eq!(swapped.settle(bounds), standard());
    let uneven =
        FrameLayout { help: area(0, 0, 80, 1), left: area(0, 1, 30, 23), right: area(30, 1, 50, 23) };
    assert_eq!(uneven.settle(bounds), FrameLayout::even(bounds));
}

#[test]
fn within_and_addressable_are_told_apart() {
    assert!(area(1, 1, 2, 2).is_within(area(0, 0, 10, 10)));
    assert!(area(0, 0, 10, 10).is_within(area(0, 0, 10, 10)));
    assert!(!area(9, 9, 2, 2).is_within(area(0, 0, 10, 10)));
    assert!(!area(0, 0, 1, 1).is_within(area(1, 1, 10, 10)));
    assert!(area(5, 5, 0, 0).is_within(area(5, 5, 0, 0)));
    assert!(area(0, 0, 65535, 65535).is_addressable());
    assert!(area(65535, 65535, 0, 0).is_addressable());
    assert!(!area(1, 0, 65535, 1).is_addressable());
    assert!(!area(0, 65535, 1, 1).is_addressable());
}

#[test]
fn frame_of_an_area_past_the_coordinates_still_fits() {
    let bounds = area(60000, 60000, 10000, 10000);
    let layout = frame_layout(bounds);
    assert!(layout.is_balanced(bounds));
    assert!(inside(layout.help, bounds));
    assert!(inside(layout.left, bounds));
    assert!(inside(layout.right, bounds));
}
