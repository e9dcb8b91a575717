use clay_layout::elements::custom::Custom;
use clay_layout::elements::custom::CustomElementConfigRecord;
use clay_layout::elements::ElementConfigType;
use clay_layout::render_commands::RenderCommandType;
use clay_layout::DataRef;

#[test]
fn config_type_codes() {
    assert_eq!(ElementConfigType::Rectangle.code(), 1);
    assert_eq!(ElementConfigType::BorderContainer.code(), 2);
    assert_eq!(ElementConfigType::FloatingContainer.code(), 4);
    assert_eq!(ElementConfigType::ScrollContainer.code(), 8);
    assert_eq!(ElementConfigType::Image.code(), 16);
    assert_eq!(ElementConfigType::Text.code(), 32);
    assert_eq!(ElementConfigType::Custom.code(), 64);
    assert_eq!(ElementConfigType::Id.code(), 65);
    assert_eq!(ElementConfigType::Layout.code(), 66);
}

#[test]
fn config_type_code_round_trip() {
    let kinds = [
        ElementConfigType::Rectangle,
        ElementConfigType::BorderContainer,
        ElementConfigType::FloatingContainer,
        ElementConfigType::ScrollContainer,
        ElementConfigType::Image,
        ElementConfigType::Text,
        ElementConfigType::Custom,
        ElementConfigType::Id,
        ElementConfigType::Layout,
    ];
    for kind in kinds {
        assert_eq!(ElementConfigType::from_code(kind.code()), Some(kind));
    }
    assert_eq!(ElementConfigType::from_code(0), None);
    assert_eq!(ElementConfigType::from_code(3), None);
    assert_eq!(ElementConfigType::from_code(255), None);
}

#[test]
fn render_command_code_round_trip() {
    let kinds = [
        RenderCommandType::NoCommand,
        RenderCommandType::Rectangle,
        RenderCommandType::Border,
        RenderCommandType::Text,
        RenderCommandType::Image,
        RenderCommandType::ScissorStart,
        RenderCommandType::ScissorEnd,
        RenderCommandType::Custom,
    ];
    for (value, kind) in kinds.iter().enumerate() {
        assert_eq!(kind.code(), value as u8);
        assert_eq!(RenderCommandType::from_code(kind.code()), Some(*kind));
    }
    assert_eq!(RenderCommandType::from_code(8), None);
    assert_eq!(RenderCommandType::from_code(255), None);
}

#[test]
fn custom_round_trip() {
    let empty = Custom::new();
    assert_eq!(Custom::from_record(empty.to_record()), empty);

    let with_data = Custom { data: Some(DataRef { slot: usize::MAX }) };
    assert_eq!(Custom::from_record(with_data.to_record()), with_data);

    let record = CustomElementConfigRecord { custom_data: Some(DataRef { slot: 7 }) };
    assert_eq!(Custom::from_record(record).to_record(), record);
}
