use window_manager::rect::Rect;

#[test]
fn available_space_test() {
    let avail_rect = Rect {
        x: 10,
        y: 10,
        width: 1900,
        height: 1029,
    };
    let first_rect = Rect {
        x: 654,
        y: 10,
        width: 612,
        height: 1029,
    };
    let last_rect = Rect {
        x: 1277,
        y: 10,
        width: 612,
        height: 1029,
    };
    let (actual_free_space_left, actual_free_space_right) =
        avail_rect.available_space(&first_rect, &last_rect);
    assert_eq!(actual_free_space_left, 644);
    assert_eq!(actual_free_space_right, 21);
}

#[test]
fn calc_new_rect_added_after_focused_first_window() {
    let outer_gap_horiz: u32 = 10;
    let outer_gap_vert: u32 = 10;
    let inner_gap: u32 = 5;

    let avail_rect = Rect {
        x: 0 + outer_gap_horiz as i32,
        y: 0 + outer_gap_vert as i32,
        width: 1920 - outer_gap_horiz * 2,
        height: 1080 - outer_gap_vert * 2,
    };

    let default_width = (avail_rect.width as f32 * 0.333) as u32;
    let default_height = avail_rect.height;
    let existing_rects = Vec::new();

    let expected_rect = Rect {
        x: avail_rect.x + (avail_rect.width as i32 - default_width as i32) / 2,
        y: avail_rect.y,
        width: default_width,
        height: default_height,
    };

    let (new_rect, move_left_rects_by, move_right_rects_by) = avail_rect
        .calc_new_rect_added_after_focused(
            default_width,
            default_height,
            None,
            &existing_rects,
            inner_gap,
        );
    assert_eq!(expected_rect, new_rect);
    assert_eq!(move_left_rects_by, 0);
    assert_eq!(move_right_rects_by, 0);
}

#[test]
fn calc_new_rect_added_after_focused_second_window() {
    let avail_rect = Rect {
        x: 10,
        y: 10,
        width: 1900,
        height: 1029,
    };
    let existing_rects = vec![Rect {
        x: 654,
        y: 10,
        width: 612,
        height: 1029,
    }];

    let expected_new_rect = Rect {
        x: 966,
        y: 10,
        width: 612,
        height: 1029,
    };

    let (actual_new_rect, move_left_rects_by, move_right_rects_by) =
        avail_rect.calc_new_rect_added_after_focused(612, 1029, Some(0), &existing_rects, 11);
    assert_eq!(expected_new_rect, actual_new_rect);
    assert_eq!(move_left_rects_by, -311);
    assert_eq!(move_right_rects_by, 0);
}

#[test]
fn calc_new_rect_added_after_focused_third_window() {
    let avail_rect = Rect {
        x: 10,
        y: 10,
        width: 1900,
        height: 1029,
    };
    let existing_rects = vec![
        Rect {
            x: 343,
            y: 10,
            width: 612,
            height: 1029,
        },
        Rect {
            x: 966,
            y: 10,
            width: 612,
            height: 1029,
        },
    ];

    let expected_new_rect = Rect {
        x: 1277,
        y: 10,
        width: 612,
        height: 1029,
    };

    let (actual_new_rect, move_left_rects_by, move_right_rects_by) =
        avail_rect.calc_new_rect_added_after_focused(612, 1029, Some(1), &existing_rects, 11);
    assert_eq!(expected_new_rect, actual_new_rect);
    assert_eq!(move_left_rects_by, -312);
    assert_eq!(move_right_rects_by, 0);
}

#[test]
fn calc_new_rect_added_after_focused_not_last_third_window() {
    let avail_rect = Rect {
        x: 10,
        y: 10,
        width: 1900,
        height: 1029,
    };
    let existing_rects = vec![
        Rect {
            x: 343,
            y: 10,
            width: 612,
            height: 1029,
        },
        Rect {
            x: 966,
            y: 10,
            width: 612,
            height: 1029,
        },
    ];

    let expected_new_rect = Rect {
        x: 654,
        y: 10,
        width: 612,
        height: 1029,
    };

    let (actual_new_rect, move_left_rects_by, move_right_rects_by) =
        avail_rect.calc_new_rect_added_after_focused(612, 1029, Some(0), &existing_rects, 11);
    assert_eq!(expected_new_rect, actual_new_rect);
    assert_eq!(move_left_rects_by, -312);
    assert_eq!(move_right_rects_by, 311);
}

#[test]
fn intersects_positive() {
    let lhs = Rect {
        x: 0,
        y: 0,
        width: 100,
        height: 100,
    };
    let rhs = Rect {
        x: 20,
        y: 20,
        width: 100,
        height: 100,
    };
    let result = lhs.intersects_with(&rhs);
    assert!(result);
}

#[test]
fn intersects_negative() {
    let lhs = Rect {
        x: 0,
        y: 0,
        width: 100,
        height: 100,
    };
    let rhs = Rect {
        x: 101,
        y: 20,
        width: 100,
        height: 100,
    };
    let result = lhs.intersects_with(&rhs);
    assert!(!result);
}

#[test]
fn center() {
    let rect = Rect {
        x: 2,
        y: 2,
        width: 10,
        height: 8,
    };
    let expected_center: (i32, i32) = (7, 6);
    let actual_center = rect.center();
    assert_eq!(expected_center, actual_center);
}

#[test]
fn new_rect_magnified_top() {
    let parent_rect = Rect {
        x: 2,
        y: 2,
        width: 10,
        height: 8,
    };
    let added_rect = Rect {
        x: 0,
        y: 0,
        width: 4,
        height: 3,
    };
    let expected_magnified_rect = Rect {
        x: 2,
        y: 2,
        width: 4,
        height: 3,
    };
    let actual_magnified_rect = parent_rect.new_rect_magnified(&added_rect);
    assert_eq!(expected_magnified_rect, actual_magnified_rect);
}

#[test]
fn new_rect_magnified_bottom() {
    let parent_rect = Rect {
        x: 2,
        y: 2,
        width: 10,
        height: 8,
    };
    let added_rect = Rect {
        x: 0,
        y: 8,
        width: 4,
        height: 3,
    };
    let expected_magnified_rect = Rect {
        x: 2,
        y: 7,
        width: 4,
        height: 3,
    };
    let actual_magnified_rect = parent_rect.new_rect_magnified(&added_rect);
    assert_eq!(expected_magnified_rect, actual_magnified_rect);
}

#[test]
fn new_rect_magnified_left() {
    let parent_rect = Rect {
        x: 2,
        y: 2,
        width: 10,
        height: 8,
    };
    let added_rect = Rect {
        x: 4,
        y: 0,
        width: 3,
        height: 4,
    };
    let expected_magnified_rect = Rect {
        x: 2,
        y: 2,
        width: 3,
        height: 4,
    };
    let actual_magnified_rect = parent_rect.new_rect_magnified(&added_rect);
    assert_eq!(expected_magnified_rect, actual_magnified_rect);
}

#[test]
fn new_rect_magnified_right() {
    let parent_rect = Rect {
        x: 2,
        y: 2,
        width: 10,
        height: 8,
    };
    let added_rect = Rect {
        x: 8,
        y: 0,
        width: 3,
        height: 4,
    };
    let expected_magnified_rect = Rect {
        x: 9,
        y: 2,
        width: 3,
        height: 4,
    };
    let actual_magnified_rect = parent_rect.new_rect_magnified(&added_rect);
    assert_eq!(expected_magnified_rect, actual_magnified_rect);
}

#[test]
fn new_rect_magnified_zero_width_added() {
    let parent_rect = Rect {
        x: 2,
        y: 2,
        width: 10,
        height: 8,
    };
    let added_rect = Rect {
        x: 8,
        y: 0,
        width: 0,
        height: 4,
    };
    let expected_magnified_rect = Rect {
        x: 12,
        y: 2,
        width: 0,
        height: 4,
    };
    let actual_magnified_rect = parent_rect.new_rect_magnified(&added_rect);
    assert_eq!(expected_magnified_rect, actual_magnified_rect);
}

#[test]
fn new_rect_magnified_zero_height_added() {
    let parent_rect = Rect {
        x: 2,
        y: 2,
        width: 10,
        height: 8,
    };
    let added_rect = Rect {
        x: 4,
        y: 0,
        width: 3,
        height: 0,
    };
    let expected_magnified_rect = Rect {
        x: 4,
        y: 2,
        width: 3,
        height: 0,
    };
    let actual_magnified_rect = parent_rect.new_rect_magnified(&added_rect);
    assert_eq!(expected_magnified_rect, actual_magnified_rect);
}

#[test]
fn new_rect_magnified_zero_width_parent_top() {
    let parent_rect = Rect {
        x: 2,
        y: 2,
        width: 0,
        height: 8,
    };
    let added_rect = Rect {
        x: 4,
        y: 0,
        width: 3,
        height: 4,
    };
    let expected_magnified_rect = Rect {
        x: 2,
        y: 2,
        width: 0,
        height: 4,
    };
    let actual_magnified_rect = parent_rect.new_rect_magnified(&added_rect);
    assert_eq!(expected_magnified_rect, actual_magnified_rect);
}

#[test]
fn new_rect_magnified_zero_width_parent_left() {
    let parent_rect = Rect {
        x: 2,
        y: 2,
        width: 0,
        height: 8,
    };
    let added_rect = Rect {
        x: 3,
        y: 0,
        width: 4,
        height: 3,
    };
    let expected_magnified_rect = Rect {
        x: 2,
        y: 2,
        width: 0,
        height: 3,
    };
    let actual_magnified_rect = parent_rect.new_rect_magnified(&added_rect);
    assert_eq!(expected_magnified_rect, actual_magnified_rect);
}

#[test]
fn available_rect_after_adding_rect_top() {
    let parent_rect = Rect {
        x: 2,
        y: 2,
        width: 10,
        height: 8,
    };
    let added_rect = Rect {
        x: 0,
        y: 0,
        width: 4,
        height: 3,
    };
    let expected_avail_rect = Rect {
        x: 2,
        y: 5,
        width: 10,
        height: 5,
    };
    let actual_avail_rect = parent_rect.available_rect_after_adding_rect(&added_rect);
    assert_eq!(expected_avail_rect, actual_avail_rect);
}

#[test]
fn available_rect_after_adding_rect_bottom() {
    let parent_rect = Rect {
        x: 2,
        y: 2,
        width: 10,
        height: 8,
    };
    let added_rect = Rect {
        x: 0,
        y: 8,
        width: 4,
        height: 3,
    };
    let expected_avail_rect = Rect {
        x: 2,
        y: 2,
        width: 10,
        height: 5,
    };
    let actual_avail_rect = parent_rect.available_rect_after_adding_rect(&added_rect);
    assert_eq!(expected_avail_rect, actual_avail_rect);
}

#[test]
fn available_rect_after_adding_rect_left() {
    let parent_rect = Rect {
        x: 2,
        y: 2,
        width: 10,
        height: 8,
    };
    let added_rect = Rect {
        x: 4,
        y: 0,
        width: 3,
        height: 4,
    };
    let expected_avail_rect = Rect {
        x: 5,
        y: 2,
        width: 7,
        height: 8,
    };
    let actual_avail_rect = parent_rect.available_rect_after_adding_rect(&added_rect);
    assert_eq!(expected_avail_rect, actual_avail_rect);
}

#[test]
fn available_rect_after_adding_rect_right() {
    let parent_rect = Rect {
        x: 2,
        y: 2,
        width: 10,
        height: 8,
    };
    let added_rect = Rect {
        x: 8,
        y: 0,
        width: 3,
        height: 4,
    };
    let expected_avail_rect = Rect {
        x: 2,
        y: 2,
        width: 7,
        height: 8,
    };
    let actual_avail_rect = parent_rect.available_rect_after_adding_rect(&added_rect);
    assert_eq!(expected_avail_rect, actual_avail_rect);
}
