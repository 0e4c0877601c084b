use maple::gfx::canvas::{Canvas, CanvasStorage, DrawStyled, Vertex};
use maple::gfx::color::Color;
use maple::px::Px;
use maple::shapes::{Extent, Point, Rect};
use maple::ui::layout::{
    active_color, hover_color, ui_color, BuilderLayoutState, ColumnState, LayoutState, TopToBottomState,
};
use maple::ui::platform::{Window as PlatformWindow, WindowControl};
use maple::ui::widget::{check_draw_bounds, fits_in, Button, Slider, State};
use maple::ui::widgets::Panel;
use maple::ui::window::{title_hash_of_digest, Window};
use maple::ui::{ActiveItem, Context, DrawCommand};

fn ext(w: i16, h: i16) -> Extent {
    Extent::new(Px(w), Px(h))
}

#[test]
fn top_to_bottom_places_children_below_each_other() {
    let mut state = TopToBottomState::begin(Px(10), Px(20), ext(100, 200), Px(5));
    let (min, max) = state.widget_extent();
    assert_eq!(min, ext(0, 0));
    assert_eq!(max, ext(100, 180));
    let first = state.position_extent(ext(30, 40));
    assert_eq!(first, Rect::new(Px(10), Px(20), Px(30), Px(40)));
    let second = state.position_extent(ext(30, 10));
    assert_eq!(second, Rect::new(Px(10), Px(65), Px(30), Px(10)));
    assert_eq!(state.advancing_y, Px(80));
}

#[test]
fn top_to_bottom_end_child_advances_twice() {
    let mut state = TopToBottomState::begin(Px(0), Px(0), ext(100, 200), Px(2));
    state.end_child(ext(10, 8));
    assert_eq!(state.advancing_y, Px(20));
}

#[test]
fn columns_share_the_width() {
    let state = TopToBottomState::begin(Px(0), Px(10), ext(100, 200), Px(0));
    let mut columns = state.layout_columns(3, Px(5));
    assert_eq!(columns.block_width(), Px(30));
    assert_eq!(columns.block_start(), Px(0));
    let (min, max) = columns.widget_extent();
    assert_eq!(min, ext(0, 0));
    assert_eq!(max, ext(30, i16::MAX));
    let r = columns.position_extent(ext(10, 7));
    // Centered in the first column: 0 + 0 + 15 - 5.
    assert_eq!(r, Rect::new(Px(10), Px(10), Px(10), Px(7)));
    assert_eq!(columns.column, 1);
    assert_eq!(columns.block_start(), Px(35));
    columns.end_child(ext(10, 12));
    assert_eq!(columns.column, 2);
    assert_eq!(columns.max_widget_height, Px(12));
    assert_eq!(columns.advancing_x, Px(10));
    let rows = columns.layout_rows(Px(1));
    assert_eq!(rows.x, Px(70));
    assert_eq!(rows.max.width, Px(30));
}

#[test]
fn column_state_begin_and_builder_state() {
    let c = ColumnState::begin(Px(1), Px(2), ext(3, 4), Px(5), 6);
    assert_eq!(c.advancing_x, Px(1));
    assert_eq!(c.column, 0);
    assert_eq!(c.max_widget_height, Px(0));
    let mut b = BuilderLayoutState::new(ext(640, 480));
    let stack = b.top_to_bottom(Px(4));
    assert_eq!(stack.max, ext(640, 480));
    assert_eq!(stack.margin, Px(4));
    b.end_child(ext(10, 30));
    assert_eq!(b.advancing_y, Px(30));
}

#[test]
fn colors_of_widget_states() {
    assert_eq!(ui_color(), Color::rgb(100, 100, 100));
    assert_eq!(hover_color(), Color::rgb(200, 200, 200));
    assert_eq!(active_color(), Color::rgb(100, 100, 255));
}

#[test]
fn button_size_and_states() {
    let button = Button { id: 7, min_size: ext(10, 20), max_size: ext(50, 60) };
    assert_eq!(button.id(), 7);
    assert_eq!(button.compute_size(ext(0, 5), ext(100, 100)), ext(50, 20));
    assert_eq!(button.compute_size(ext(0, 30), ext(40, 100)), ext(40, 30));
    assert!(fits_in(ext(0, 5), ext(50, 60)));
    assert!(!fits_in(ext(51, 0), ext(50, 60)));

    let rect = Rect::new(Px(0), Px(0), Px(10), Px(10));
    let mut context = Context::new();
    // The cursor is away: idle.
    context.cursor = Point::new(Px(20), Px(20));
    assert_eq!(button.compute_state(rect, &mut context), State::Idle);
    // Under the cursor: hovered.
    context.cursor = Point::new(Px(5), Px(5));
    assert_eq!(button.compute_state(rect, &mut context), State::Hover);
    assert_eq!(context.hover_item, 7);
    // Pressed under the cursor: takes the mouse.
    context.is_lmb_pressed = true;
    assert_eq!(button.compute_state(rect, &mut context), State::Active);
    assert_eq!(context.active_item, ActiveItem::Active(7));
    // Holds the mouse even when the cursor leaves.
    context.cursor = Point::new(Px(50), Px(50));
    assert_eq!(button.compute_state(rect, &mut context), State::Active);
    // Another button cannot take the mouse.
    let other = Button { id: 8, min_size: ext(10, 20), max_size: ext(50, 60) };
    context.cursor = Point::new(Px(5), Px(5));
    assert_eq!(other.compute_state(rect, &mut context), State::Hover);
    assert!(State::Hover.is_hover());
    assert!(State::Active.is_active());
    assert!(!State::Idle.is_active());

    assert_eq!(button.draw(State::Idle, rect), DrawCommand::ColoredRect { rect, color: ui_color() });
    assert_eq!(button.draw(State::Hover, rect), DrawCommand::ColoredRect { rect, color: hover_color() });
    assert_eq!(button.draw(State::Active, rect), DrawCommand::ColoredRect { rect, color: active_color() });
}

#[test]
fn draw_bounds_check() {
    let bounds = Rect::new(Px(0), Px(0), Px(10), Px(10));
    let inside = DrawCommand::ColoredRect { rect: Rect::new(Px(1), Px(1), Px(5), Px(5)), color: ui_color() };
    let outside = DrawCommand::ColoredRect { rect: Rect::new(Px(8), Px(8), Px(5), Px(5)), color: ui_color() };
    assert!(check_draw_bounds(bounds, &inside));
    assert!(!check_draw_bounds(bounds, &outside));
}

#[test]
fn context_rebuild_inputs() {
    let mut context = Context::new();
    assert_eq!(context.active_item, ActiveItem::Available);
    let mut buffer = vec![DrawCommand::ColoredRect { rect: Rect::new(Px(0), Px(0), Px(1), Px(1)), color: ui_color() }];
    {
        let handler = context.begin(ext(100, 100), &mut buffer);
        let mut builder = handler.move_cursor(Point::new(Px(3), Px(4)));
        builder.draw(DrawCommand::ColoredRect { rect: Rect::new(Px(0), Px(0), Px(2), Px(2)), color: hover_color() });
        let commands = builder.build();
        assert_eq!(commands.len(), 1);
    }
    assert_eq!(context.cursor, Point::new(Px(3), Px(4)));
    {
        let handler = context.begin(ext(100, 100), &mut buffer);
        let builder = handler.lmb_pressed(true);
        let commands = builder.build();
        assert!(commands.is_empty());
    }
    assert!(context.is_lmb_pressed);
    {
        let handler = context.begin(ext(100, 100), &mut buffer);
        handler.no_input().build();
    }
    assert!(context.is_lmb_pressed);
}

#[test]
fn panels() {
    let p = Panel::new(Color::rgb(1, 2, 3), Px(4), None, Some(ext(9, 9)));
    assert_eq!(p.min_extent, ext(0, 0));
    assert_eq!(p.max_extent, ext(9, 9));
    let q = Panel::fixed_size(Color::rgb(1, 2, 3), Px(4), ext(5, 6));
    assert_eq!(q.min_extent, ext(5, 6));
    assert_eq!(q.max_extent, ext(5, 6));
}

#[test]
fn canvas_draws_rectangles() {
    let mut storage = CanvasStorage::new();
    let red = Color::rgb(255, 0, 0);
    {
        let mut canvas = Canvas::new(ext(100, 50), &mut storage);
        assert_eq!(canvas.size(), ext(100, 50));
        canvas.draw_styled(&Rect::new(Px(1), Px(2), Px(3), Px(4)), red);
        canvas.draw_styled(&Rect::new(Px(10), Px(10), Px(1), Px(1)), red);
        assert_eq!(
            canvas.vertices()[..4],
            [
                Vertex { position: Point::new(Px(1), Px(2)), color: red },
                Vertex { position: Point::new(Px(1), Px(6)), color: red },
                Vertex { position: Point::new(Px(4), Px(6)), color: red },
                Vertex { position: Point::new(Px(4), Px(2)), color: red },
            ]
        );
        assert_eq!(canvas.indices(), &[0u16, 1, 2, 0, 2, 3, 4, 5, 6, 4, 6, 7]);
        canvas.clear();
        assert!(canvas.vertices().is_empty());
    }
    // A new canvas starts empty over the same storage.
    storage = CanvasStorage::default();
    let canvas = Canvas::new(ext(1, 1), &mut storage);
    assert!(canvas.indices().is_empty());
}

#[test]
fn window_titles() {
    let window = Window::new("maple", 42, 3, PlatformWindow::default());
    assert_eq!(window.get_title(), "maple");
    assert_eq!(window.name_hash, 42);
    assert_eq!(window.frame_last_touched, 3);
    let long = "x".repeat(255);
    assert_eq!(Window::new(&long, 0, 0, PlatformWindow::default()).get_title(), long);
    assert_eq!(title_hash_of_digest(0x1234_5678_9abc_def0), 0x9abc_def0);
    assert_eq!(Window::hash_title("maple"), Window::hash_title("maple"));
    assert_ne!(Window::hash_title("maple"), Window::hash_title("elpam"));
}

#[test]
fn window_control_slots() {
    let mut control = WindowControl::new();
    // Entries start without an OS window, and the kept handles are 0, which
    // `is_null` does not call null: the kept handle is handed out as is.
    let h = control.create_window();
    assert_eq!(h.raw_value(), 0);
    assert_eq!(h.index(), 0);
    let h2 = control.create_window();
    assert_eq!(h2, h);
    control.close_requested(h);
    assert_eq!(control.destroy_window(h), Ok(Some(0)));
    // The kept handle moved on a generation, so the old one is stale.
    assert_eq!(control.destroy_window(h), Ok(None));
    // The kept handle is now not 0, so a fresh one replaces it.
    let h3 = control.create_window();
    assert_eq!(h3.index(), 0);
    assert_eq!(h3.generation(), 1);
    assert!(!control.window_destroyed());
    assert!(!control.window_destroyed());
    assert!(control.window_destroyed());
    assert_eq!(PlatformWindow::default().hwnd(), 0);
}

#[test]
fn builder_state_places_children_at_the_left_edge() {
    let mut state = BuilderLayoutState::new(ext(300, 100));
    assert_eq!(state.widget_extent(), (ext(0, 0), ext(300, 100)));
    let rect = state.position_extent(ext(300, 30));
    assert_eq!(rect, Rect::new(Px(0), Px(0), Px(300), Px(30)));
    assert_eq!(state.advancing_y, Px(30));
    assert_eq!(state.widget_extent(), (ext(0, 0), ext(300, 70)));
    let rect = state.position_extent(ext(120, 20));
    assert_eq!(rect, Rect::new(Px(0), Px(30), Px(120), Px(20)));
    assert_eq!(state.advancing_y, Px(50));
}

#[test]
fn slider_size_state_and_drawing() {
    let slider = Slider { id: 9, max_height: Px(20), slider_width: Px(5) };
    assert_eq!(slider.compute_size(ext(0, 0), ext(200, 100)), ext(200, 20));
    assert_eq!(slider.compute_size(ext(0, 0), ext(200, 12)), ext(200, 12));

    let rect = Rect::new(Px(10), Px(40), Px(105), Px(20));
    assert_eq!(slider.active_area(rect), Px(100));

    let mut context = Context::new();
    context.cursor = Point::new(Px(50), Px(45));
    assert_eq!(slider.compute_state(rect, &mut context), State::Hover);
    assert_eq!(context.hover_item, 9);
    context.is_lmb_pressed = true;
    assert_eq!(slider.compute_state(rect, &mut context), State::Active);
    assert_eq!(context.active_item, ActiveItem::Active(9));
    context.cursor = Point::new(Px(0), Px(0));
    assert_eq!(slider.compute_state(rect, &mut context), State::Active);

    // A 20 pixel row has a 6 pixel bar, 7 pixels below its top.
    let (bar, knob) = slider.draw(State::Hover, rect, Px(50));
    assert_eq!(bar, DrawCommand::ColoredRect { rect: Rect::new(Px(10), Px(47), Px(105), Px(6)), color: ui_color() });
    assert_eq!(knob, DrawCommand::ColoredRect { rect: Rect::new(Px(60), Px(40), Px(5), Px(20)), color: hover_color() });

    // A 2 pixel row has a 1 pixel bar.
    let thin = Rect::new(Px(0), Px(0), Px(30), Px(2));
    let (bar, knob) = slider.draw(State::Active, thin, Px(0));
    assert_eq!(bar, DrawCommand::ColoredRect { rect: Rect::new(Px(0), Px(0), Px(30), Px(1)), color: ui_color() });
    assert_eq!(knob, DrawCommand::ColoredRect { rect: Rect::new(Px(0), Px(0), Px(5), Px(2)), color: active_color() });
}
