use joid::protocol;

#[test]
fn constants_agree_with_xcb() {
    assert_eq!(protocol::WINDOW_CLASS_COPY_FROM_PARENT as u32, xcb::WINDOW_CLASS_COPY_FROM_PARENT as u32);
    assert_eq!(protocol::WINDOW_CLASS_INPUT_OUTPUT as u32, xcb::WINDOW_CLASS_INPUT_OUTPUT as u32);
    assert_eq!(protocol::CW_BORDER_PIXEL as u32, xcb::CW_BORDER_PIXEL as u32);
    assert_eq!(protocol::CW_BACKING_PIXEL as u32, xcb::CW_BACKING_PIXEL as u32);
    assert_eq!(protocol::CW_EVENT_MASK as u32, xcb::CW_EVENT_MASK as u32);
    assert_eq!(protocol::CW_CURSOR as u32, xcb::CW_CURSOR as u32);
    assert_eq!(protocol::EVENT_MASK_SUBSTRUCTURE_NOTIFY as u32, xcb::EVENT_MASK_SUBSTRUCTURE_NOTIFY as u32);
    assert_eq!(protocol::EVENT_MASK_SUBSTRUCTURE_REDIRECT as u32, xcb::EVENT_MASK_SUBSTRUCTURE_REDIRECT as u32);
    assert_eq!(protocol::MAP_STATE_VIEWABLE as u32, xcb::MAP_STATE_VIEWABLE as u32);
    assert_eq!(protocol::CONFIG_WINDOW_X as u32, xcb::CONFIG_WINDOW_X as u32);
    assert_eq!(protocol::CONFIG_WINDOW_Y as u32, xcb::CONFIG_WINDOW_Y as u32);
    assert_eq!(protocol::CONFIG_WINDOW_WIDTH as u32, xcb::CONFIG_WINDOW_WIDTH as u32);
    assert_eq!(protocol::CONFIG_WINDOW_HEIGHT as u32, xcb::CONFIG_WINDOW_HEIGHT as u32);
    assert_eq!(protocol::CONFIG_WINDOW_BORDER_WIDTH as u32, xcb::CONFIG_WINDOW_BORDER_WIDTH as u32);
    assert_eq!(protocol::CONFIG_WINDOW_SIBLING as u32, xcb::CONFIG_WINDOW_SIBLING as u32);
    assert_eq!(protocol::CONFIG_WINDOW_STACK_MODE as u32, xcb::CONFIG_WINDOW_STACK_MODE as u32);
}

#[test]
fn event_codes_agree_with_xcb() {
    assert_eq!(protocol::KEY_PRESS as u32, xcb::KEY_PRESS as u32);
    assert_eq!(protocol::ENTER_NOTIFY as u32, xcb::ENTER_NOTIFY as u32);
    assert_eq!(protocol::DESTROY_NOTIFY as u32, xcb::DESTROY_NOTIFY as u32);
    assert_eq!(protocol::UNMAP_NOTIFY as u32, xcb::UNMAP_NOTIFY as u32);
    assert_eq!(protocol::MAP_REQUEST as u32, xcb::MAP_REQUEST as u32);
    assert_eq!(protocol::CONFIGURE_REQUEST as u32, xcb::CONFIGURE_REQUEST as u32);
    assert_eq!(protocol::PROPERTY_NOTIFY as u32, xcb::PROPERTY_NOTIFY as u32);
    assert_eq!(protocol::CLIENT_MESSAGE as u32, xcb::CLIENT_MESSAGE as u32);
}
