use toon::input::Pattern;
use toon::{Input, Key, KeyPress, Modifiers, Mouse, MouseButton, MouseKind, Vec2};

#[test]
fn test_input_macro() {
    let mouse = Mouse {
        kind: MouseKind::Press(MouseButton::Middle),
        at: Vec2::new(5, 6),
        size: Vec2::new(7, 8),
        modifiers: Modifiers::shift(),
    };

    let key = |input: Input| -> bool { matches!(input, Input::Key(_)) };
    let any_mouse = |input: Input| -> bool { matches!(input, Input::Mouse(_)) };
    assert!(key.matches(Input::Key(KeyPress::from('b'))));
    assert!(any_mouse.matches(Input::Mouse(mouse)));
    assert!(!key.matches(Input::Mouse(mouse)));
    assert!(!any_mouse.matches(Input::Key(KeyPress::from('b'))));

    let key_at = |input: Input| -> bool {
        matches!(input, Input::Key(press) if press.key == Key::Char('@'))
    };
    assert!(key_at.matches(Input::Key(KeyPress::from('@'))));

    let key_a = |input: Input| -> bool {
        matches!(input, Input::Key(press) if press.key == Key::Char('a'))
    };
    assert!(key_a.matches(Input::Key(KeyPress::from('A'))));

    let shift_key_a =
        |input: Input| -> bool { input.modifiers().shift && key_a(input) };
    assert!(shift_key_a.matches(Input::Key(KeyPress::from('A'))));
    assert!(!shift_key_a.matches(Input::Key(KeyPress::from('B'))));
    assert!(!shift_key_a.matches(Input::Key(KeyPress::from('a'))));

    let first = |input: Input| -> bool { !input.modifiers().shift && key_a(input) };
    let second_1 = |input: Input| -> bool { !(input.modifiers().shift && key_a(input)) };
    let second_2 = |input: Input| -> bool { !(input.modifiers().shift && key_a(input)) };

    assert!(first.matches(Input::Key(KeyPress::from('a'))));
    assert!(!first.matches(Input::Key(KeyPress::from('A'))));
    assert!(!first.matches(Input::Key(KeyPress::from('m'))));
    assert!(!first.matches(Input::Key(KeyPress::from('M'))));

    assert!(second_1.matches(Input::Key(KeyPress::from('a'))));
    assert!(!second_1.matches(Input::Key(KeyPress::from('A'))));
    assert!(second_1.matches(Input::Key(KeyPress::from('m'))));
    assert!(second_1.matches(Input::Key(KeyPress::from('M'))));

    assert!(second_2.matches(Input::Key(KeyPress::from('a'))));
    assert!(!second_2.matches(Input::Key(KeyPress::from('A'))));
    assert!(second_2.matches(Input::Key(KeyPress::from('m'))));
    assert!(second_2.matches(Input::Key(KeyPress::from('M'))));

    let control_key_b = |input: Input| -> bool {
        input.modifiers().control
            && matches!(input, Input::Key(press) if press.key == Key::Char('b'))
    };
    assert!(control_key_b.matches(Input::Key(KeyPress {
        key: Key::Char('b'),
        modifiers: Modifiers::control(),
    })));

    let press = |input: Input| -> bool {
        matches!(input, Input::Mouse(mouse) if matches!(mouse.kind, MouseKind::Press(_)))
    };
    let release = |input: Input| -> bool {
        matches!(input, Input::Mouse(mouse) if matches!(mouse.kind, MouseKind::Release(_)))
    };
    let release_middle = |input: Input| -> bool {
        matches!(
            input,
            Input::Mouse(mouse)
                if matches!(mouse.kind, MouseKind::Release(button) if button == MouseButton::Middle)
        )
    };
    let press_middle = |input: Input| -> bool {
        matches!(
            input,
            Input::Mouse(mouse)
                if matches!(mouse.kind, MouseKind::Press(button) if button == MouseButton::Middle)
        )
    };
    let press_left = |input: Input| -> bool {
        matches!(
            input,
            Input::Mouse(mouse)
                if matches!(mouse.kind, MouseKind::Press(button) if button == MouseButton::Left)
        )
    };
    assert!(press.matches(Input::Mouse(mouse)));
    assert!(!release.matches(Input::Mouse(mouse)));
    assert!(!release_middle.matches(Input::Mouse(mouse)));
    assert!(press_middle.matches(Input::Mouse(mouse)));
    assert!(!press_left.matches(Input::Mouse(mouse)));
}

#[test]
fn input_accessors() {
    let press = KeyPress::from('Q');
    assert_eq!(press.key, Key::Char('q'));
    assert_eq!(press.modifiers, Modifiers::shift());
    let plain = KeyPress::from('q');
    assert!(plain.modifiers.are_none());
    assert_eq!(KeyPress::from('é').key, Key::Char('é'));

    let input = Input::from(press);
    assert_eq!(input.key(), Some(press));
    assert_eq!(input.mouse(), None);
    assert_eq!(input.modifiers(), Modifiers::shift());

    let mouse = Mouse {
        kind: MouseKind::Move,
        at: Vec2::new(1, 2),
        size: Vec2::new(3, 4),
        modifiers: Modifiers::alt(),
    };
    let input = Input::from(mouse);
    assert_eq!(input.key(), None);
    assert_eq!(input.mouse(), Some(mouse));
    assert_eq!(input.modifiers(), Modifiers::alt());
}

#[test]
fn modifiers_union() {
    let both = Modifiers::shift() | Modifiers::control();
    assert_eq!(both, Modifiers { shift: true, control: true, alt: false });
    let mut all = both;
    all |= Modifiers::alt();
    assert_eq!(all, Modifiers { shift: true, control: true, alt: true });
    assert!(!all.are_none());
    assert!(Modifiers::default().are_none());
}

#[test]
fn patterns_of_plain_values() {
    let press = KeyPress::from('x');
    assert!(press.matches(Input::Key(press)));
    assert!(!press.matches(Input::Key(KeyPress::from('X'))));
    assert!('X'.matches(Input::Key(KeyPress::from('X'))));
    assert!(!'X'.matches(Input::Key(KeyPress::from('x'))));
    assert!(Key::Char('x').matches(Input::Key(press)));
    assert!(!Key::Char('x').matches(Input::Key(KeyPress::from('X'))));
    assert!(Input::Key(press).matches(Input::Key(press)));

    let mouse = Mouse {
        kind: MouseKind::ScrollUp,
        at: Vec2::new(1, 2),
        size: Vec2::new(3, 4),
        modifiers: Modifiers::default(),
    };
    assert!(mouse.matches(Input::Mouse(mouse)));
    assert!(!mouse.matches(Input::Key(press)));
    assert!(MouseKind::ScrollUp.matches(Input::Mouse(mouse)));
    assert!(!MouseKind::ScrollDown.matches(Input::Mouse(mouse)));
    let held = Mouse { modifiers: Modifiers::control(), ..mouse };
    assert!(!MouseKind::ScrollUp.matches(Input::Mouse(held)));
}

#[test]
fn key_presses_as_terminals_report_them() {
    let none = Modifiers::default();
    assert_eq!(KeyPress::typed('a', none), KeyPress { key: Key::Char('a'), modifiers: none });
    assert_eq!(
        KeyPress::typed('A', none),
        KeyPress { key: Key::Char('a'), modifiers: Modifiers::shift() }
    );
    // A capital letter outside ASCII keeps its form and counts as shifted.
    assert_eq!(
        KeyPress::typed('É', Modifiers::alt()),
        KeyPress { key: Key::Char('É'), modifiers: Modifiers::alt() | Modifiers::shift() }
    );
    assert_eq!(
        KeyPress::typed('é', Modifiers::control()),
        KeyPress { key: Key::Char('é'), modifiers: Modifiers::control() }
    );
    assert_eq!(
        KeyPress::back_tab(Modifiers::control()),
        KeyPress { key: Key::Char('\t'), modifiers: Modifiers::control() | Modifiers::shift() }
    );
}

#[test]
fn inputs_equal_what_they_are() {
    let press = KeyPress::from('Q');
    let input = Input::Key(press);
    assert!(input == press && press == input);
    assert!(input == 'Q' && 'Q' == input && press == 'Q' && 'Q' == press);
    assert!(input != 'q' && press != 'q');
    let mouse = Mouse {
        kind: MouseKind::Move,
        at: Vec2::new(0, 0),
        size: Vec2::new(1, 1),
        modifiers: Modifiers::default(),
    };
    assert!(Input::Mouse(mouse) == mouse && mouse == Input::Mouse(mouse));
    assert!(input != mouse && Input::Mouse(mouse) != press && Input::Mouse(mouse) != 'Q');
}

#[test]
fn any_pattern_of_a_tuple_matches() {
    let q = Input::Key(KeyPress::from('q'));
    let x = Input::Key(KeyPress::from('x'));
    assert!(!().matches(q));
    assert!(('q',).matches(q) && !('q',).matches(x));
    assert!(('a', 'q').matches(q) && ('q', 'a').matches(q) && !('a', 'b').matches(q));
    assert!(('a', Key::Up, MouseKind::Move, 'q').matches(q));
    let twelve = ('a', 'b', 'c', 'd', 'e', 'f', 'g', 'h', 'i', 'j', 'k', 'q');
    assert!(twelve.matches(q) && !twelve.matches(x));
}
