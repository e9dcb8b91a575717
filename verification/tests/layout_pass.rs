use std::mem;

use clay_layout::color::Color;
use clay_layout::elements::containers::border::BorderContainer;
use clay_layout::elements::containers::floating::Floating;
use clay_layout::elements::containers::floating::FloatingAttachPointType;
use clay_layout::elements::containers::scroll::Scroll;
use clay_layout::elements::custom::Custom;
use clay_layout::elements::image::Image;
use clay_layout::elements::rectangle::Rectangle;
use clay_layout::elements::text::Text;
use clay_layout::elements::CornerRadius;
use clay_layout::elements::ElementConfigType;
use clay_layout::id::Id;
use clay_layout::layout::padding::Padding;
use clay_layout::layout::Layout;
use clay_layout::layout::Sizing;
use clay_layout::Clay;
use clay_layout::EngineCall;
use clay_layout::TypedConfig;

#[test]
fn test_begin() {
    let mut clay = Clay::new(800, 600);

    clay.begin();

    let l1 = Layout::new()
        .sizing_width(Sizing::Fixed(100))
        .sizing_height(Sizing::Fixed(100))
        .padding(Padding::from((10, 10)))
        .end(&mut clay);
    let r1 = Rectangle::new().color(Color::rgb(255, 255, 255)).end(&mut clay);
    let clay = clay.with(&vec![l1, r1], |c| {
        let mut c = c;
        let l2 = Layout::new()
            .sizing_width(Sizing::Fixed(100))
            .sizing_height(Sizing::Fixed(100))
            .padding(Padding::from((10, 10)))
            .end(&mut c);
        let r2 = Rectangle::new().color(Color::rgb(255, 255, 255)).end(&mut c);
        c.with(&vec![l2, r2], |inner| inner)
    });

    let mut clay = clay;
    let l3 = Layout::new().padding(Padding::from((16, 16))).end(&mut clay);
    let b3 = BorderContainer::new()
        .all_directions(2, Color::rgb(255, 255, 0))
        .corner_radius(CornerRadius::All(25))
        .end(&mut clay);
    let clay = clay.with(&vec![l3, b3], |c| {
        let mut c = c;
        let l4 = Layout::new()
            .sizing_width(Sizing::Fixed(50))
            .sizing_height(Sizing::Fixed(50))
            .end(&mut c);
        let r4 = Rectangle::new().color(Color::rgb(0, 255, 255)).end(&mut c);
        c.with(&vec![l4, r4], |inner| inner)
    });

    let mut clay = clay;
    let render_array = clay.end();
    assert!(clay.is_current(&render_array));

    for item in clay.script() {
        println!("{:?}", item);
    }
}

#[test]
fn size_of_union() {
    assert_eq!(mem::size_of::<Sizing>(), mem::size_of::<Sizing>())
}

// Builds one parent with padding and two fixed-size rectangle children,
// and returns the engine-call script the pass hands to the engine.
fn build_two_child_tree(width: u32, height: u32) -> Vec<EngineCall> {
    let mut clay = Clay::new(width, height);
    clay.begin();
    let parent_layout = Layout::new().padding(Padding::all(10)).end(&mut clay);
    let clay = clay.with(&vec![parent_layout], |c| {
        let mut c = c;
        let l1 = Layout::new()
            .sizing_width(Sizing::Fixed(100))
            .sizing_height(Sizing::Fixed(100))
            .end(&mut c);
        let r1 = Rectangle::new().color(Color::rgb(10, 20, 30)).end(&mut c);
        let c = c.with(&vec![l1, r1], |k| k);
        let mut c = c;
        let l2 = Layout::new()
            .sizing_width(Sizing::Fixed(50))
            .sizing_height(Sizing::Fixed(50))
            .end(&mut c);
        let r2 = Rectangle::new().color(Color::rgb(40, 50, 60)).end(&mut c);
        c.with(&vec![l2, r2], |k| k)
    });
    let mut clay = clay;
    clay.end();
    clay.script().clone()
}

#[test]
fn tree_shape() {
    // A parent with padding and two fixed-size rectangle children hands the
    // engine exactly this structure, whatever the viewport is.
    let script = build_two_child_tree(800, 600);
    assert_eq!(script.len(), 21);
    assert!(matches!(script[0], EngineCall::BeginLayout));
    assert!(matches!(&script[1], EngineCall::StoreLayout { config }
        if config.padding == Padding::all(10)));
    assert!(matches!(script[2], EngineCall::OpenElement));
    assert!(matches!(script[3], EngineCall::AttachLayout { slot: 0 }));
    assert!(matches!(script[4], EngineCall::PostConfiguration));
    assert!(matches!(&script[5], EngineCall::StoreLayout { config }
        if config.width == Sizing::Fixed(100) && config.height == Sizing::Fixed(100)));
    assert!(matches!(script[6], EngineCall::StoreRectangle { .. }));
    assert!(matches!(script[7], EngineCall::OpenElement));
    assert!(matches!(script[8], EngineCall::AttachLayout { slot: 1 }));
    assert!(matches!(script[9], EngineCall::AttachConfig { slot: 2, kind_code: 1 }));
    assert!(matches!(script[10], EngineCall::PostConfiguration));
    assert!(matches!(script[11], EngineCall::CloseElement));
    assert!(matches!(&script[12], EngineCall::StoreLayout { config }
        if config.width == Sizing::Fixed(50) && config.height == Sizing::Fixed(50)));
    assert!(matches!(script[13], EngineCall::StoreRectangle { .. }));
    assert!(matches!(script[14], EngineCall::OpenElement));
    assert!(matches!(script[15], EngineCall::AttachLayout { slot: 3 }));
    assert!(matches!(script[16], EngineCall::AttachConfig { slot: 4, kind_code: 1 }));
    assert!(matches!(script[17], EngineCall::PostConfiguration));
    assert!(matches!(script[18], EngineCall::CloseElement));
    assert!(matches!(script[19], EngineCall::CloseElement));
    assert!(matches!(script[20], EngineCall::EndLayout));

    // The structure handed over does not depend on the viewport.
    assert_eq!(script, build_two_child_tree(320, 240));
}

#[test]
fn text_leaf_is_atomic() {
    let mut clay = Clay::new(320, 240);
    clay.begin();
    let config = Text::new().font_size(24).color(Color::rgb(255, 255, 255)).end(&mut clay);
    clay.text("hello", config);
    clay.end();
    let script = clay.script();
    // One store, one atomic text call: the text call opens no element and
    // closes none, so there is no form through which a child could attach
    // to the text node.
    assert_eq!(script.len(), 4);
    assert!(matches!(script[0], EngineCall::BeginLayout));
    assert!(matches!(script[1], EngineCall::StoreText { .. }));
    assert!(matches!(&script[2], EngineCall::OpenText { text, slot }
        if text.as_str() == "hello" && *slot == 0));
    assert!(matches!(script[3], EngineCall::EndLayout));
    assert!(!script.iter().any(|c| matches!(
        c,
        EngineCall::OpenElement | EngineCall::CloseElement
    )));
}

#[test]
fn pass_isolation() {
    let mut clay = Clay::new(320, 240);
    clay.begin();
    let first = clay.end();
    assert!(clay.is_current(&first));

    clay.begin();
    // A conforming caller stops using `first` here: it is no longer current.
    assert!(!clay.is_current(&first));
    let second = clay.end();
    assert!(clay.is_current(&second));
    assert!(!clay.is_current(&first));
    assert_ne!(first.generation(), second.generation());
}

#[test]
fn finalize_stamps_own_discriminant() {
    let mut clay = Clay::new(100, 100);
    clay.begin();
    let rect = Rectangle::new().end(&mut clay);
    assert_eq!(rect.config_type, ElementConfigType::Rectangle);
    assert_eq!(rect.config_slot, 0);
    let border = BorderContainer::new().end(&mut clay);
    assert_eq!(border.config_type, ElementConfigType::BorderContainer);
    assert_eq!(border.config_slot, 1);
    let image = Image::new().dimensions(64, 64).end(&mut clay);
    assert_eq!(image.config_type, ElementConfigType::Image);
    assert_eq!(image.config_slot, 2);
    let scroll = Scroll::new().vertical(true).end(&mut clay);
    assert_eq!(scroll.config_type, ElementConfigType::ScrollContainer);
    assert_eq!(scroll.config_slot, 3);
    let custom = Custom::new().end(Id::new(1), &mut clay);
    assert_eq!(custom.config_type, ElementConfigType::Custom);
    assert_eq!(custom.config_slot, 4);
    let layout = Layout::new().end(&mut clay);
    assert_eq!(layout.config_type, ElementConfigType::Layout);
    assert_eq!(layout.config_slot, 5);
    let floating = Floating::new().z_index(3).end(&mut clay);
    assert_eq!(floating.config_type, ElementConfigType::FloatingContainer);
    assert_eq!(floating.config_slot, 6);
    assert_eq!(custom.id, Id::new(1));
    assert_eq!(rect.generation, clay.generation());
}

#[test]
fn with_routes_by_discriminant() {
    let mut clay = Clay::new(640, 480);
    clay.begin();
    let layout = Layout::new().end(&mut clay);
    let rect = Rectangle::new().color(Color::rgb(1, 2, 3)).end(&mut clay);
    let ident = TypedConfig {
        config_slot: 0,
        id: Id::new(42),
        config_type: ElementConfigType::Id,
        generation: clay.generation(),
    };
    let clay = clay.with(&vec![ident, layout, rect], |c| c);
    let mut clay = clay;
    clay.end();
    let script = clay.script();
    // Each handle goes to the entry point its discriminant selects, in the
    // order the handles were given.
    assert!(matches!(script[3], EngineCall::OpenElement));
    assert!(matches!(&script[4], EngineCall::AttachId { id } if *id == Id::new(42)));
    assert!(matches!(script[5], EngineCall::AttachLayout { slot: 0 }));
    assert!(matches!(script[6], EngineCall::AttachConfig { slot: 1, kind_code: 1 }));
    assert!(matches!(script[7], EngineCall::PostConfiguration));
}

#[test]
fn floating_attach_point_codes() {
    let points = [
        FloatingAttachPointType::LeftTop,
        FloatingAttachPointType::LeftCenter,
        FloatingAttachPointType::LeftBottom,
        FloatingAttachPointType::CenterTop,
        FloatingAttachPointType::CenterCenter,
        FloatingAttachPointType::CenterBottom,
        FloatingAttachPointType::RightTop,
        FloatingAttachPointType::RightCenter,
        FloatingAttachPointType::RightBottom,
    ];
    for (value, point) in points.iter().enumerate() {
        assert_eq!(point.code(), value as u8);
    }
}
