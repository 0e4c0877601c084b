use maple::gfx::color::Color;
use maple::gfx::geometry;
use maple::gfx::vulkan::{
    acquired_image, buffer_layout, choose_image_count, choose_image_extent, choose_present_mode,
    choose_surface_format, find_memory_type, select_physical_device, select_queues, sharing_mode, to_extent,
    AcquireResult, Extent2D, Gpu, QueueFamily, SharingMode, SurfaceFormat, DEFAULT_VERTEX_BUFFER_SIZE,
};
use maple::event_loop::{on_window_event, take_inputs, LoopAction, SpawnAction, WindowLoop};
use maple::handle::{Error as HandleError, Handle32};
use maple::os_window2::{Message, Reply, WindowManager, MAX_WINDOWS};
use maple::px::Px;
use maple::shapes::{Extent, Point, Rect};
use maple::sys::input::{ButtonState, Event as InputEvent, MouseButton};
use maple::sys::window::{handle_message, to_wstr, Event, Message as WinMessage, Response, WindowState};
use maple::traits::{CountingOutputIter, OutputIter};
use maple::WindowStatus;

#[test]
fn point_rect_intersection() {
    let rect = geometry::Rect {
        lower_left_corner: geometry::Point { x: 100, y: 100 },
        extent: geometry::Extent { width: 200, height: 400 },
    };

    // 4 corners
    assert!(rect.contains_point(geometry::Point::new(100, 100)));
    assert!(rect.contains_point(geometry::Point::new(100, 500)));
    assert!(rect.contains_point(geometry::Point::new(300, 500)));
    assert!(rect.contains_point(geometry::Point::new(300, 100)));

    assert!(!rect.contains_point(geometry::Point::new(0, 0)));
}

#[test]
fn types_type_size() {
    assert_eq!(std::mem::size_of::<Box<str>>(), 16);
    assert_eq!(std::mem::size_of::<&'static str>(), 16);
}

#[test]
fn geometry_points_and_sizes() {
    let rect = geometry::Rect::new(1i32, 2, 3, 4);
    assert_eq!(rect.x(), 1);
    assert_eq!(rect.y(), 2);
    assert_eq!(rect.width(), 3);
    assert_eq!(rect.height(), 4);
    let points = rect.points();
    for p in points.iter() {
        assert!(p.is_in(rect));
    }
    assert!(!geometry::Point::new(5i32, 5).is_in(rect));
    assert_eq!(geometry::Extent::<u16>::max_value().width, u16::MAX);
    assert_eq!(geometry::Extent::new(7i64, 8).height, 8);
    assert_eq!(geometry::Rect::<u32>::INDICES, [0, 1, 2, 0, 2, 3]);
}

#[test]
fn pixel_arithmetic() {
    assert_eq!(Px(3) + Px(4), Px(7));
    assert_eq!(Px(3) - Px(4), Px(-1));
    assert_eq!(Px(7) / Px(2), Px(3));
    assert_eq!(Px(-7) / Px(2), Px(-3));
    assert_eq!(Px(-7) % Px(2), Px(-1));
    assert_eq!(Px(7) * 3, Px(21));
    assert_eq!(3 * Px(7), Px(21));
    assert_eq!(Px(9) / 2, Px(4));
    assert_eq!(Px(9) % 2, Px(1));
    assert_eq!(Px(5).max(Px(3)), Px(5));
    assert_eq!(Px(5).min(Px(3)), Px(3));
    assert_eq!(Px::max_value(), Px(i16::MAX));
    assert_eq!(Px::from(12), Px(12));
}

#[test]
fn shapes() {
    let r = Rect::from_extent(Px(10), Px(20), Extent::new(Px(30), Px(40)));
    assert_eq!(r.left(), Px(10));
    assert_eq!(r.right(), Px(40));
    assert_eq!(r.top(), Px(20));
    assert_eq!(r.bottom(), Px(60));
    assert_eq!(
        r.points(),
        [
            Point::new(Px(10), Px(20)),
            Point::new(Px(10), Px(60)),
            Point::new(Px(40), Px(60)),
            Point::new(Px(40), Px(20)),
        ]
    );
    for p in r.points().iter() {
        assert!(r.contains_point(*p));
    }
    assert!(!r.contains_point(Point::new(Px(41), Px(20))));
    assert!(r.contains_rect(Rect::new(Px(10), Px(20), Px(30), Px(40))));
    assert!(!r.contains_rect(Rect::new(Px(9), Px(20), Px(30), Px(40))));
    assert_eq!(Point::new(Px(1), Px(2)) + Extent::new(Px(3), Px(4)), Rect::new(Px(1), Px(2), Px(3), Px(4)));
    assert_eq!(Extent::max_value(), Extent::new(Px(i16::MAX), Px(i16::MAX)));
    assert_eq!(Rect::INDICES, [0, 1, 2, 0, 2, 3]);
}

#[test]
fn colors() {
    let c = Color::rgba(0x11, 0x22, 0x33, 0x44);
    assert_eq!(c.pack(), 0x4433_2211);
    assert_eq!(Color::unpack(0x4433_2211), c);
    assert_eq!(Color::unpack(c.pack()), c);
    assert_eq!(Color::unpack(0xdead_beef).pack(), 0xdead_beef);
    assert_eq!(Color::rgb(1, 2, 3).a, 255);
    assert_eq!(Color::random_rgb().a, 255);
    // Random colors differ sooner or later.
    let first = Color::random_rgb();
    assert!((0..64).any(|_| Color::random_rgb() != first));
    assert_eq!(maple::color::Color::rgb(4, 5, 6).b, 6);
}

#[test]
fn handles() {
    let h = Handle32::<16>::new(3, 2).unwrap();
    assert_eq!(h.raw_value(), 3 | (2 << 5));
    assert_eq!(h.index(), 3);
    assert_eq!(h.generation(), 2);
    assert_eq!(Handle32::<16>::new(32, 0), Err(HandleError::IndexOutOfRange));
    // Generations are checked against the bits that are not index bits.
    assert_eq!(Handle32::<16>::new(0, 0xFFFF_FFE1), Err(HandleError::GenerationOutOfRange));
    let mut g = Handle32::<16>::new_index(5).unwrap();
    assert_eq!(g.generation(), 1);
    g.inc_generation().unwrap();
    assert_eq!(g.generation(), 2);
    assert_eq!(g.index(), 5);
    assert_eq!(Handle32::<16>::new_index(40), Err(HandleError::IndexOutOfRange));
    // The highest generation that fits moves on to generation 0: the bit
    // shifted past bit 31 is lost.
    let mut top = Handle32::<16>::new(1, 0x07FF_FFFF).unwrap();
    assert_eq!(top.generation(), 0x07FF_FFFF);
    assert_eq!(top.inc_generation(), Ok(()));
    assert_eq!(top.generation(), 0);
    assert_eq!(top.index(), 1);
    assert_eq!(Handle32::<16>::null().raw_value(), 0);
    assert_eq!(Handle32::<16>::from_raw_value(77).raw_value(), 77);
    // `is_null` holds of a handle whose raw value is not 0.
    assert!(!Handle32::<16>::null().is_null());
    assert!(h.is_null());
}

#[test]
fn os_window_table() {
    let mut wm = WindowManager::new();
    assert!(!wm.has_windows());
    // The free list hands entries out from the last one.
    let h = wm.allocate_handle().unwrap();
    assert!(!h.is_null());
    assert!(wm.is_valid(h));
    assert!(wm.get(h).is_some());
    assert_eq!(wm.handle_message(h, Message::Create { hwnd: 1234 }), Reply::Handled);
    assert_eq!(wm.get(h).unwrap().hwnd(), 1234);
    assert_eq!(wm.handle_message(h, Message::Close), Reply::Handled);
    assert!(wm.get(h).unwrap().was_close_requested);
    assert_eq!(wm.destroy_window(h), Some(1234));
    assert_eq!(wm.handle_message(h, Message::Other), Reply::Default);
    assert_eq!(wm.handle_message(h, Message::Destroy), Reply::Handled);
    assert!(!wm.is_valid(h));
    assert!(wm.get(h).is_none());
    assert_eq!(wm.destroy_window(h), None);
    // The entry is reused at once, at the next generation.
    let again = wm.allocate_handle().unwrap();
    assert!(wm.is_valid(again));
    assert_ne!(again, h);
    assert_eq!(wm.handle_message(Default::default(), Message::Close), Reply::Default);
}

#[test]
fn os_window_table_fills_up() {
    let mut wm = WindowManager::new();
    let mut handles = Vec::new();
    for _ in 0..MAX_WINDOWS {
        let h = wm.allocate_handle().unwrap();
        assert!(!h.is_null());
        handles.push(h);
    }
    assert_eq!(wm.allocate_handle(), None);
    for h in &handles {
        assert!(wm.is_valid(*h));
    }
}

#[test]
fn window_messages() {
    let mut state = WindowState::new();
    assert_eq!(
        handle_message(&mut state, WinMessage::Create { cx: 640, cy: 480 }),
        Response::Dispatch(Event::Created { size: Extent::new(Px(640), Px(480)) })
    );
    assert_eq!(handle_message(&mut state, WinMessage::Close), Response::Dispatch(Event::CloseRequested {}));
    state.set_min_size(Extent::new(Px(100), Px(50)));
    assert_eq!(state.min_size(), Extent::new(Px(100), Px(50)));
    assert_eq!(handle_message(&mut state, WinMessage::GetMinMaxInfo), Response::SetMinTrackSize { x: 100, y: 50 });
    assert_eq!(
        handle_message(&mut state, WinMessage::Size { lparam: (300 << 16) | 200 }),
        Response::Dispatch(Event::Resized { size: Extent::new(Px(200), Px(300)) })
    );
    assert_eq!(handle_message(&mut state, WinMessage::EraseBackground), Response::Return(1));
    assert_eq!(
        handle_message(&mut state, WinMessage::MouseMove { lparam: (7 << 16) | 9 }),
        Response::Dispatch(Event::Input(InputEvent::CursorMove { position: Point::new(Px(9), Px(7)) }))
    );
    assert_eq!(
        handle_message(&mut state, WinMessage::RButtonUp),
        Response::Dispatch(Event::Input(InputEvent::MouseButton {
            button: MouseButton::Right,
            state: ButtonState::Released
        }))
    );
    assert_eq!(
        handle_message(&mut state, WinMessage::MouseWheel { wparam: 120 << 16 }),
        Response::Dispatch(Event::Input(InputEvent::ScrollWheel { x: 0, y: 120 }))
    );
    assert_eq!(
        handle_message(&mut state, WinMessage::Char { wparam: 'A' as usize }),
        Response::Dispatch(Event::Input(InputEvent::Char { codepoint: 'A' }))
    );
    // A high surrogate is kept, not reported.
    assert_eq!(handle_message(&mut state, WinMessage::Char { wparam: 0xD83D }), Response::Return(0));
    assert_eq!(state.high_surrogate, 0xD83D);
    assert_eq!(handle_message(&mut state, WinMessage::Paint), Response::Dispatch(Event::Update {}));
    assert_eq!(handle_message(&mut state, WinMessage::Other), Response::Default);
    assert_eq!(ButtonState::default(), ButtonState::Released);
}

#[test]
fn wide_titles() {
    assert_eq!(to_wstr::<8>("abc"), vec![0x61, 0x62, 0x63, 0]);
    // Characters beyond the basic plane take two units.
    assert_eq!(to_wstr::<8>("\u{1F600}"), vec![0xD83D, 0xDE00, 0]);
    // A long title is cut, its last kept unit replaced by the terminator.
    assert_eq!(to_wstr::<4>("abcdef"), vec![0x61, 0x62, 0x63, 0]);
    assert_eq!(to_wstr::<4>(""), vec![0]);
}

#[test]
fn vulkan_choices() {
    let srgb = SurfaceFormat { format: 50, color_space: 0 };
    let other = SurfaceFormat { format: 44, color_space: 0 };
    assert_eq!(choose_surface_format(&[other, srgb], srgb), srgb);
    assert_eq!(choose_surface_format(&[other], srgb), other);
    assert_eq!(choose_present_mode(&[0, 1, 2], 1, 2), 1);
    assert_eq!(choose_present_mode(&[0, 3], 1, 2), 2);

    let unbounded = Extent2D { width: u32::MAX, height: u32::MAX };
    let min = Extent2D { width: 10, height: 10 };
    let max = Extent2D { width: 100, height: 100 };
    assert_eq!(
        choose_image_extent(unbounded, min, max, Extent2D { width: 500, height: 5 }),
        Extent2D { width: 100, height: 10 }
    );
    let current = Extent2D { width: 30, height: 40 };
    assert_eq!(choose_image_extent(current, min, max, Extent2D { width: 500, height: 5 }), current);

    assert_eq!(choose_image_count(2, 1, 0), 2);
    assert_eq!(choose_image_count(2, 3, 0), 3);
    assert_eq!(choose_image_count(2, 3, 8), 3);
    assert_eq!(choose_image_count(9, 3, 8), 8);

    assert_eq!(sharing_mode(1, 1), SharingMode::Exclusive);
    assert_eq!(sharing_mode(0, 1), SharingMode::Concurrent);
    assert_eq!(acquired_image(AcquireResult::Acquired { index: 2, suboptimal: false }), Some(2));
    assert_eq!(acquired_image(AcquireResult::Acquired { index: 2, suboptimal: true }), None);
    assert_eq!(acquired_image(AcquireResult::OutOfDate), None);

    // The first allowed type with the needed properties.
    assert_eq!(find_memory_type(0b110, &[0b1, 0b10, 0b11], 0b1), Some(2));
    assert_eq!(find_memory_type(0b1, &[0b10], 0b1), None);

    let g = QueueFamily { graphics: true, present: false };
    let p = QueueFamily { graphics: false, present: true };
    let both = QueueFamily { graphics: true, present: true };
    let none = QueueFamily { graphics: false, present: false };
    assert_eq!(select_queues(&[g, p]), Some((0, 1)));
    assert_eq!(select_queues(&[none, both]), Some((1, 1)));
    assert_eq!(select_queues(&[g, none]), None);
    assert_eq!(
        select_physical_device(&[vec![g], vec![none, both]]),
        Some(Gpu { device: 1, graphics_queue_index: 1, present_queue_index: 1 })
    );
    assert_eq!(select_physical_device(&[vec![p]]), None);

    // Index data starts at the vertex data rounded up to the alignment.
    let (offset, capacity) = buffer_layout(100, 20, 64);
    assert_eq!(offset, 128);
    assert_eq!(capacity, DEFAULT_VERTEX_BUFFER_SIZE as u64);
    let (offset, capacity) = buffer_layout(10000, 200, 64);
    assert_eq!(offset, 10048);
    assert_eq!(capacity, 10248);
    assert_eq!(to_extent(Extent::new(Px(640), Px(480))), Extent2D { width: 640, height: 480 });
}

#[test]
fn output_iterators() {
    let mut v: Vec<u8> = Vec::new();
    OutputIter::push(&mut v, 3);
    OutputIter::push(&mut v, 4);
    assert_eq!(CountingOutputIter::len(&v), 2);
    assert_eq!(v, vec![3, 4]);
}

#[test]
fn window_status() {
    let s = WindowStatus::Created;
    assert_ne!(s, WindowStatus::Destroyed);
    assert_ne!(WindowStatus::Unknown, WindowStatus::Created);
}

#[test]
fn default_handle_is_null() {
    let h = Handle32::<4>::default();
    assert_eq!(h.raw_value(), 0);
    assert_eq!(h.index(), 0);
    assert_eq!(h.generation(), 0);
    assert_eq!(h, Handle32::<4>::null());
}

#[test]
fn window_event_loop_decisions() {
    let zero = Extent::new(Px(0), Px(0));
    let size = Extent::new(Px(300), Px(200));
    assert_eq!(
        on_window_event(zero, Event::Created { size }),
        (size, SpawnAction::Bind { min_size: Extent::new(Px(100), Px(100)), size })
    );
    assert_eq!(on_window_event(size, Event::CloseRequested {}), (size, SpawnAction::Stop));
    assert_eq!(on_window_event(size, Event::Destroyed {}), (size, SpawnAction::Nothing));
    let bigger = Extent::new(Px(400), Px(250));
    assert_eq!(on_window_event(size, Event::Resized { size: bigger }), (bigger, SpawnAction::Nothing));
    let click = InputEvent::MouseButton { button: MouseButton::Left, state: ButtonState::Pressed };
    assert_eq!(on_window_event(size, Event::Input(click)), (size, SpawnAction::Queue(click)));
    assert_eq!(on_window_event(size, Event::Update {}), (size, SpawnAction::Draw { size }));
    assert_eq!(on_window_event(zero, Event::Update {}), (zero, SpawnAction::Nothing));

    let mut pending = vec![];
    assert_eq!(take_inputs(&mut pending), vec![InputEvent::Empty]);
    assert!(pending.is_empty());
    pending.push(click);
    assert_eq!(take_inputs(&mut pending), vec![click]);
    assert!(pending.is_empty());
}

#[test]
fn window_loop_hands_out_queued_inputs() {
    let size = Extent::new(Px(300), Px(200));
    let mut events = WindowLoop::new();
    // No size yet: an update draws nothing.
    assert_eq!(events.on_event(Event::Update {}), LoopAction::Continue);
    assert_eq!(
        events.on_event(Event::Created { size }),
        LoopAction::Bind { min_size: Extent::new(Px(100), Px(100)), size }
    );
    assert_eq!(
        events.on_event(Event::Update {}),
        LoopAction::Draw { size, inputs: vec![InputEvent::Empty] }
    );
    let click = InputEvent::MouseButton { button: MouseButton::Left, state: ButtonState::Pressed };
    let release = InputEvent::MouseButton { button: MouseButton::Left, state: ButtonState::Released };
    assert_eq!(events.on_event(Event::Input(click)), LoopAction::Continue);
    assert_eq!(events.on_event(Event::Input(release)), LoopAction::Continue);
    let bigger = Extent::new(Px(500), Px(400));
    assert_eq!(events.on_event(Event::Resized { size: bigger }), LoopAction::Continue);
    assert_eq!(
        events.on_event(Event::Update {}),
        LoopAction::Draw { size: bigger, inputs: vec![click, release] }
    );
    assert_eq!(events.on_event(Event::CloseRequested {}), LoopAction::Stop);
}
