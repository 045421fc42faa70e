use app_core::config::{
    select_config, window_title, CONTEXT_VERSION_MAJOR, CONTEXT_VERSION_MINOR, INITIAL_HEIGHT,
    INITIAL_WIDTH,
};

#[test]
fn window_request_is_fixed() {
    assert_eq!(window_title(), "OpenGL Example");
    assert_eq!((INITIAL_WIDTH, INITIAL_HEIGHT), (800, 600));
    assert_eq!((CONTEXT_VERSION_MAJOR, CONTEXT_VERSION_MINOR), (3, 3));
}

#[test]
fn config_with_most_samples_is_taken() {
    assert_eq!(select_config(&[]), None);
    assert_eq!(select_config(&[0]), Some(0));
    assert_eq!(select_config(&[0, 4, 2, 8, 1]), Some(3));
    assert_eq!(select_config(&[16, 4, 2, 8, 1]), Some(0));
}

#[test]
fn first_of_equal_configs_is_taken() {
    assert_eq!(select_config(&[4, 8, 8, 2, 8]), Some(1));
    assert_eq!(select_config(&[0, 0, 0]), Some(0));
    assert_eq!(select_config(&[255, 255]), Some(0));
}
