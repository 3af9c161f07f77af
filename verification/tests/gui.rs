use workbook::gui::u32_string;
use workbook::gui::Button;
use workbook::gui::Draw;
use workbook::gui::Screen;

#[test]
fn button_draws_its_label_and_size() {
    let button = Button {
        width: 8,
        height: 7,
        label: "OK".to_string(),
    };
    assert_eq!("Drawing a button named OK that is 8x7", button.draw());
}

#[test]
fn screen_renders_components_in_order() {
    let screen = Screen {
        components: vec![
            Button {
                width: 8,
                height: 7,
                label: "Yes".to_string(),
            },
            Button {
                width: 120,
                height: 40,
                label: "No".to_string(),
            },
        ],
    };
    let rendered = screen.run();
    assert_eq!(
        vec![
            "Drawing a button named Yes that is 8x7".to_string(),
            "Drawing a button named No that is 120x40".to_string(),
        ],
        rendered
    );
}

#[test]
fn empty_screen_renders_nothing() {
    let screen: Screen<Button> = Screen {
        components: Vec::new(),
    };
    assert!(screen.run().is_empty());
}

#[test]
fn decimal_rendering_is_exact() {
    assert_eq!("0", u32_string(0));
    assert_eq!("9", u32_string(9));
    assert_eq!("10", u32_string(10));
    assert_eq!("907", u32_string(907));
    assert_eq!("4294967295", u32_string(u32::MAX));
}
