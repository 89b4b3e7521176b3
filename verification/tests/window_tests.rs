use window_manager::rect::Rect;
use window_manager::window::WindowsCollection;

fn at(x: i32, y: i32) -> Rect {
    Rect { x, y, width: 10, height: 10 }
}

fn ids(c: &WindowsCollection) -> Vec<u32> {
    (0..c.len()).map(|i| c.index_window(i)).collect()
}

#[test]
fn sorting_by_x_then_y_orders_by_y_then_x() {
    let mut c = WindowsCollection::new(4);
    c.add(1, at(30, 5), true);
    c.add(2, at(10, 5), true);
    c.add(3, at(20, 0), true);
    c.add(4, at(10, 5), true);
    c.add(5, at(0, 9), true);
    c.sort_by_rect_x_asc();
    assert_eq!(ids(&c), vec![5, 2, 4, 3, 1]);
    c.sort_by_rect_y_asc();
    // By y; among equal y by x; windows 2 and 4 are equal in both and keep
    // their order.
    assert_eq!(ids(&c), vec![3, 2, 4, 1, 5]);
}
