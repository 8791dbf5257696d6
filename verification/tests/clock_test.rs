use busycrab::motion::Motion;
use busycrab::motion::clock::ClockMotion;
use busycrab::motion::clock::centered_exec;
use busycrab::motion::clock::get_current_time;
use busycrab::motion::clock::render_clock_frame;

fn rows_as_strings(rows: &Vec<Vec<char>>) -> Vec<String> {
    rows.iter().map(|r| r.iter().collect()).collect()
}

#[test]
fn test_clock_motion_creation() {
    let _motion = ClockMotion::new();
    assert!(true);
}

#[test]
fn test_clock_motion_update() {
    let mut motion = ClockMotion::new();
    for _ in 0..3 {
        motion.update();
    }
    assert!(true);
}

#[test]
fn test_current_time_ranges() {
    let (h, m, s) = get_current_time();
    assert!(h < 24);
    assert!(m < 60);
    assert!(s < 60);
}

#[test]
fn test_cycling_char_steps_every_three_frames() {
    let clock = ClockMotion::new();
    assert_eq!(clock.get_cycling_char(0, 0), '0');
    assert_eq!(clock.get_cycling_char(0, 2), '0');
    assert_eq!(clock.get_cycling_char(0, 3), 'O');
    assert_eq!(clock.get_cycling_char(1, 0), '1');
    // The twelve-character alphabet wraps after 36 frames.
    assert_eq!(clock.get_cycling_char(0, 36), '0');
}

#[test]
fn test_draw_digit_shapes() {
    let clock = ClockMotion::new();
    let two = rows_as_strings(&clock.draw_digit(2, 0));
    assert_eq!(two, vec![" _____ ", "      |", " __2__|", "|      ", "|_____ "]);
    let zero = rows_as_strings(&clock.draw_digit(0, 0));
    assert_eq!(zero, vec![" _____ ", "|     |", "|  0  |", "|     |", "|_____|"]);
    let one = rows_as_strings(&clock.draw_digit(1, 3));
    assert_eq!(one, vec!["   |   ", "   |   ", "   I   ", "   |   ", "   |   "]);
    let seven = rows_as_strings(&clock.draw_digit(7, 0));
    assert_eq!(seven, vec![" _____ ", "      |", "   7  |", "      |", "      |"]);
}

#[test]
fn test_every_digit_glyph_cycles() {
    // Each digit's glyph carries one interior position that cycles with
    // the frame counter: three frames later the center character changes.
    let clock = ClockMotion::new();
    for d in 0..10u8 {
        let now = clock.draw_digit(d, 0);
        let later = clock.draw_digit(d, 3);
        assert_ne!(now[2], later[2], "digit {d} center row should cycle");
        assert_eq!(now[0], later[0]);
        assert_eq!(now[4], later[4]);
    }
}

#[test]
fn test_draw_colon_shape() {
    let colon = rows_as_strings(&ClockMotion::draw_colon());
    assert_eq!(colon, vec!["       ", "   |   ", "       ", "   |   ", "       "]);
}

#[test]
fn test_centering() {
    let lines: Vec<Vec<char>> = vec![vec!['a', 'b']];
    let out = rows_as_strings(&centered_exec(&lines, 10, 5));
    assert_eq!(out, vec![
        "          ",
        "          ",
        "    ab",
        "          ",
        "          ",
    ]);
}

#[test]
fn test_digit_decomposition_at_23_59_09() {
    // DigitalClock digit decomposition: at 23:59:09 the rendered tens/ones
    // pairs are (2,3), (5,9), (0,9).
    let clock = ClockMotion::new();
    let frame: String = render_clock_frame(23, 59, 9, 0, 0, 0, false, &clock).iter().collect();
    let blocks = [
        clock.draw_digit(2, 0),
        clock.draw_digit(3, 0),
        ClockMotion::draw_colon(),
        clock.draw_digit(5, 0),
        clock.draw_digit(9, 0),
        ClockMotion::draw_colon(),
        clock.draw_digit(0, 0),
        clock.draw_digit(9, 0),
    ];
    let mut expected = String::from("\u{1b}[2J\u{1b}[H");
    for i in 0..5 {
        expected.push_str("\u{1b}[38;5;255m");
        for b in blocks.iter() {
            let row: String = b[i].iter().collect();
            expected.push_str(&row);
        }
        expected.push_str("\u{1b}[0m\n");
    }
    assert_eq!(frame, expected);
}
