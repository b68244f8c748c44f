use plain_msgbox::default::{
    DEFAULT_HORIZONTAL_BAR, DEFAULT_LEFT_BOTTOM_CORNER, DEFAULT_LEFT_TOP_CORNER,
    DEFAULT_RIGHT_BOTTOM_CORNER, DEFAULT_RIGHT_TOP_CORNER, DEFAULT_VERTICAL_BAR,
};
use plain_msgbox::dos::DOS_HORIZONTAL_BAR;
use plain_msgbox::{generate_box, generate_with_caption, generate_with_config, TextBoxConfig};

#[test]
fn test_empty_boxes() {
    let completely_empty = generate_box(&[]);
    assert_eq!(completely_empty, "╭──╮\n╰──╯");

    let empty_with_caption = generate_with_caption(&[], "a super long caption");
    assert_eq!(
        empty_with_caption,
        "\
╭──────────────────────╮
<a super long caption>─╯"
    );

    let msgbox1 = generate_box(&[String::new()]);
    assert_eq!(
        msgbox1,
        "\
╭──╮
│  │
╰──╯"
    );

    let msgbox2 = generate_box(&[
        String::new(),
        String::new(),
        String::new(),
        String::new(),
        String::new(),
    ]);

    assert_eq!(
        msgbox2,
        "\
╭──╮
│  │
│  │
│  │
│  │
│  │
╰──╯"
    );
}

#[test]
fn test_message_box() {
    let msgbox = generate_box(&[
        "Line 1:              ".to_string(),
        "                       line 2".to_string(),
        "abc".to_string(),
        "".to_string(),
        "42".to_string(),
    ]);

    assert_eq!(
        msgbox,
        "\
╭───────────────────────────────╮
│ Line 1:                       │
│                        line 2 │
│ abc                           │
│                               │
│ 42                            │
╰───────────────────────────────╯"
    );
}

#[test]
fn test_message_box_caption() {
    let msgbox = generate_with_caption(
        &[
            "Lorem ipsum dolor sit amet, consectetur adipiscing elit".to_string(),
            "sed do eiusmod tempor incididunt ut labore et dolore magna aliqua".to_string(),
            "Ut enim ad minim veniam".to_string(),
            "quis nostrud exercitation ullamco laboris nisi ut aliquip ex ea commodo consequat".to_string(),
            "Duis aute irure dolor in reprehenderit in voluptate velit esse cillum dolore eu fugiat nulla pariatur".to_string(),
        ],
        "Lorem ipsum",
    );

    println!("{}", msgbox);

    assert_eq!(
        msgbox,
        "\
╭───────────────────────────────────────────────────────────────────────────────────────────────────────╮
│ Lorem ipsum dolor sit amet, consectetur adipiscing elit                                               │
│ sed do eiusmod tempor incididunt ut labore et dolore magna aliqua                                     │
│ Ut enim ad minim veniam                                                                               │
│ quis nostrud exercitation ullamco laboris nisi ut aliquip ex ea commodo consequat                     │
│ Duis aute irure dolor in reprehenderit in voluptate velit esse cillum dolore eu fugiat nulla pariatur │
<Lorem ipsum>───────────────────────────────────────────────────────────────────────────────────────────╯"
    );
}

#[test]
fn test_message_box_config() {
    let msgbox = generate_with_config(
        &[
            "The Rustonomicon. The Dark Arts of Unsafe Rust.".to_string(),
            "THE KNOWLEDGE IS PROVIDED 'AS IS', WITHOUT WARRANTY OF ANY KIND OR IMPLIED, INCLUDING BUT NOT LIMITED TO".to_string(),
            "THE WARRANTIES OF UNLEASHING INDESCRIBABLE HORRORS THAT SHATTER YOUR PSYCHE AND SET YOUR MIND ADRIFT IN ".to_string(),
            "THE UNKNOWABLY INFINITE COSMOS.".to_string(),
        ],
        TextBoxConfig::dos(),
    );

    assert_eq!(msgbox,
        "\
╔══════════════════════════════════════════════════════════════════════════════════════════════════════════╗
║ The Rustonomicon. The Dark Arts of Unsafe Rust.                                                          ║
║ THE KNOWLEDGE IS PROVIDED 'AS IS', WITHOUT WARRANTY OF ANY KIND OR IMPLIED, INCLUDING BUT NOT LIMITED TO ║
║ THE WARRANTIES OF UNLEASHING INDESCRIBABLE HORRORS THAT SHATTER YOUR PSYCHE AND SET YOUR MIND ADRIFT IN  ║
║ THE UNKNOWABLY INFINITE COSMOS.                                                                          ║
╚══════════════════════════════════════════════════════════════════════════════════════════════════════════╝"
)
}

fn rows(s: &str) -> Vec<&str> {
    s.split('\n').collect()
}

fn width(row: &str) -> usize {
    row.chars().count()
}

#[test]
fn single_line_box() {
    assert_eq!(
        generate_box(&["abc".to_string()]),
        "╭─────╮\n│ abc │\n╰─────╯"
    );
}

#[test]
fn empty_box_is_two_rows_of_four() {
    let msg = generate_box(&[]);
    let r = rows(&msg);
    assert_eq!(r.len(), 2);
    assert!(r.iter().all(|row| width(row) == 4));
}

#[test]
fn rows_share_one_width() {
    let lines = vec![
        "Line 1:              ".to_string(),
        "                       line 2".to_string(),
        "abc".to_string(),
        "".to_string(),
        "42".to_string(),
    ];
    let msg = generate_box(&lines);
    let r = rows(&msg);
    assert_eq!(r.len(), lines.len() + 2);
    assert!(r.iter().all(|row| width(row) == 33));

    let captioned = generate_with_caption(&lines, "Rust Editions");
    let r = rows(&captioned);
    assert!(r.iter().all(|row| width(row) == 33));
}

#[test]
fn line_follows_bar_and_space() {
    let lines = vec!["x y".to_string(), "".to_string(), "  lead".to_string()];
    let msg = generate_box(&lines);
    let r = rows(&msg);
    for (k, line) in lines.iter().enumerate() {
        let prefix = format!("│ {}", line);
        assert!(r[k + 1].starts_with(&prefix));
    }
    assert_eq!(r[2], "│        │");
}

#[test]
fn caption_shorter_than_lines() {
    let msg = generate_with_caption(&["abcdef".to_string()], "ab");
    assert_eq!(msg, "╭────────╮\n│ abcdef │\n<ab>─────╯");
}

#[test]
fn caption_as_long_as_lines() {
    let msg = generate_with_caption(&["abcd".to_string()], "wxyz");
    assert_eq!(msg, "╭──────╮\n│ abcd │\n<wxyz>─╯");
}

#[test]
fn caption_longer_than_lines() {
    let msg = generate_with_caption(&["ab".to_string()], "wxyz");
    assert_eq!(msg, "╭──────╮\n│ ab   │\n<wxyz>─╯");
}

#[test]
fn empty_caption() {
    let msg = generate_with_caption(&["ab".to_string()], "");
    assert_eq!(msg, "╭────╮\n│ ab │\n<>───╯");
}

#[test]
fn caption_on_edition_lines() {
    let msg = generate_with_caption(
        &[
            format!("2015 is {:#b} in binary!", 2015),
            format!("2018 is {:#o} in octal!", 2018),
            format!("2021 is {:#x} in hex!", 2021),
        ],
        "Rust Editions",
    );
    assert_eq!(
        msg,
        "\
╭──────────────────────────────────╮
│ 2015 is 0b11111011111 in binary! │
│ 2018 is 0o3742 in octal!         │
│ 2021 is 0x7e5 in hex!            │
<Rust Editions>────────────────────╯"
    );
}

#[test]
fn double_preset_with_caption() {
    let msg = generate_with_config(
        &[
            String::from("Function Name: generate_with_config"),
            String::from("Address: 0x55e7d53f0860"),
        ],
        TextBoxConfig::dos().with_caption("Fn Info"),
    );
    assert_eq!(
        msg,
        "\
╔═════════════════════════════════════╗
║ Function Name: generate_with_config ║
║ Address: 0x55e7d53f0860             ║
<Fn Info>═════════════════════════════╝"
    );
}

#[test]
fn double_preset_widths_match_light() {
    let lines = vec!["one".to_string(), "three".to_string()];
    let light = generate_box(&lines);
    let double = generate_with_config(&lines, TextBoxConfig::dos());
    assert_eq!(double, "╔═══════╗\n║ one   ║\n║ three ║\n╚═══════╝");
    let lw: Vec<usize> = rows(&light).iter().map(|r| width(r)).collect();
    let dw: Vec<usize> = rows(&double).iter().map(|r| width(r)).collect();
    assert_eq!(lw, dw);
}

#[test]
fn with_caption_keeps_preset() {
    let preset = TextBoxConfig::default();
    let captioned = preset.with_caption("note");
    assert_eq!(preset.last_line_caption, None);
    assert_eq!(preset.horizontal_bar, DEFAULT_HORIZONTAL_BAR);
    assert_eq!(captioned.last_line_caption, Some("note"));
    assert_eq!(captioned.horizontal_bar, preset.horizontal_bar);
    assert_eq!(captioned.vertical_bar, preset.vertical_bar);
    assert_eq!(captioned.left_top_corner, preset.left_top_corner);
    assert_eq!(captioned.left_bottom_corner, preset.left_bottom_corner);
    assert_eq!(captioned.right_top_corner, preset.right_top_corner);
    assert_eq!(captioned.right_bottom_corner, preset.right_bottom_corner);

    let dos = TextBoxConfig::dos();
    let dos_captioned = dos.with_caption("x");
    assert_eq!(dos.last_line_caption, None);
    assert_eq!(dos_captioned.horizontal_bar, DOS_HORIZONTAL_BAR);
}

#[test]
fn default_preset_glyphs() {
    let c = TextBoxConfig::default();
    assert_eq!(c.horizontal_bar, DEFAULT_HORIZONTAL_BAR);
    assert_eq!(c.vertical_bar, DEFAULT_VERTICAL_BAR);
    assert_eq!(c.left_top_corner, DEFAULT_LEFT_TOP_CORNER);
    assert_eq!(c.left_bottom_corner, DEFAULT_LEFT_BOTTOM_CORNER);
    assert_eq!(c.right_top_corner, DEFAULT_RIGHT_TOP_CORNER);
    assert_eq!(c.right_bottom_corner, DEFAULT_RIGHT_BOTTOM_CORNER);
}

#[test]
fn width_counts_characters() {
    let msg = generate_box(&["héllo".to_string(), "ab".to_string()]);
    assert_eq!(msg, "╭───────╮\n│ héllo │\n│ ab    │\n╰───────╯");
}

#[test]
fn custom_glyphs() {
    let config = TextBoxConfig {
        horizontal_bar: "-",
        vertical_bar: "|",
        left_top_corner: "+",
        left_bottom_corner: "+",
        right_top_corner: "+",
        right_bottom_corner: "+",
        last_line_caption: None,
    };
    let msg = generate_with_config(&["hi".to_string()], config);
    assert_eq!(msg, "+----+\n| hi |\n+----+");
}
