use tm_mumble_link::window::{
    get_window_handle, hide_window, is_window_visible, set_window_visible, show_window, Window,
};

#[test]
fn a_new_window_is_visible() {
    assert!(is_window_visible(&Window::new()));
}

#[test]
fn hiding_and_showing_the_window() {
    let mut w = Window::new();
    hide_window(&mut w);
    assert!(!is_window_visible(&w));
    show_window(&mut w);
    assert!(is_window_visible(&w));
    set_window_visible(&mut w, false);
    assert!(!is_window_visible(&w));
    set_window_visible(&mut w, true);
    assert!(is_window_visible(&w));
}

#[test]
fn the_window_has_no_handle_to_give() {
    assert_eq!(get_window_handle(), ());
}
