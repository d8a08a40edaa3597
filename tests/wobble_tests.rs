use wobble::engine::WobbleOptions;
use wobble::envelope::{wobble_api, WobbleRequest};
use wobble::stream::{draw_replaces, draw_upper_case};
use wobble::{wobble, CHANCE_ONE, DEFAULT_CHANCE};

fn opts(seed: u64, chance: u32, c: char) -> WobbleOptions {
    WobbleOptions { seed, repl_char_chance: chance, repl_char: c }
}

#[test]
fn test_wobble() {
    let opts = WobbleOptions::default();
    assert_eq!(wobble("Goodbye World!", &opts), "gooDbye w_Rld!");
}

#[test]
fn default_options_values() {
    let o = WobbleOptions::default();
    assert_eq!(o.seed, 32);
    assert_eq!(o.repl_char_chance, DEFAULT_CHANCE);
    assert_eq!(o.repl_char, '_');
}

#[test]
fn default_chance_matches_five_percent() {
    let scale = (1u64 << 24) as f32;
    for k in [DEFAULT_CHANCE - 1, DEFAULT_CHANCE] {
        let as_float = k as f32 / scale;
        assert_eq!(as_float < 0.05f32, k < DEFAULT_CHANCE);
    }
}

#[test]
fn repeated_calls_agree() {
    let o = opts(7, 3_000_000, '*');
    let s = "The quick brown fox jumps over the lazy dog";
    assert_eq!(wobble(s, &o), wobble(s, &o));
}

#[test]
fn different_seeds_differ() {
    let s = "Goodbye World!";
    assert_ne!(wobble(s, &opts(32, DEFAULT_CHANCE, '_')), wobble(s, &opts(33, DEFAULT_CHANCE, '_')));
}

#[test]
fn empty_input_gives_empty_output() {
    assert_eq!(wobble("", &WobbleOptions::default()), "");
    assert_eq!(wobble("", &opts(0, CHANCE_ONE, 'x')), "");
}

#[test]
fn full_chance_replaces_every_character() {
    assert_eq!(wobble("abc", &opts(5, CHANCE_ONE, '#')), "###");
    assert_eq!(wobble("héllo wörld", &opts(9, u32::MAX, '_')), "___________");
}

#[test]
fn zero_chance_only_changes_case() {
    let s = "Goodbye World!";
    let out = wobble(s, &opts(32, 0, '_'));
    assert!(!out.contains('_'));
    assert_eq!(out.to_lowercase(), s.to_lowercase());
    assert_ne!(out, s.to_lowercase());
    assert_ne!(out, s.to_uppercase());
}

#[test]
fn case_mapping_may_expand_a_character() {
    let mut saw_expansion = false;
    for seed in 0..64u64 {
        let out = wobble("ß", &opts(seed, 0, '_'));
        assert!(out == "ß" || out == "SS");
        saw_expansion |= out == "SS";
    }
    assert!(saw_expansion);
}

#[test]
fn characters_are_units_not_bytes() {
    let out = wobble("日本語", &opts(1, 0, '_'));
    assert_eq!(out, "日本語");
    assert_eq!(wobble("日本語", &opts(1, CHANCE_ONE, '?')), "???");
}

#[test]
fn replacement_draw_uses_top_24_bits() {
    assert!(draw_replaces(0x0000_00ff, 1));
    assert!(!draw_replaces(0x0000_0100, 1));
    assert!(!draw_replaces(0, 0));
    assert!(draw_replaces(u32::MAX, CHANCE_ONE));
}

#[test]
fn case_draw_uses_top_bit() {
    assert!(draw_upper_case(0x8000_0000));
    assert!(!draw_upper_case(0x7fff_ffff));
}

#[test]
fn api_keeps_the_request_id() {
    let req = WobbleRequest {
        id: 0x67e5_5044_10b1_426f_9247_bb68_0e5f_e0c8,
        options: WobbleOptions::default(),
        input: String::from("Goodbye World!"),
    };
    let resp = wobble_api(&req);
    assert_eq!(resp.id, 0x67e5_5044_10b1_426f_9247_bb68_0e5f_e0c8);
    assert_eq!(resp.output, "gooDbye w_Rld!");
}

#[test]
fn api_round_trips_the_textual_id() {
    let text = "67e55044-10b1-426f-9247-bb680e5fe0c8";
    let id = uuid::Uuid::parse_str(text).unwrap().as_u128();
    let req = WobbleRequest { id, options: opts(1, 0, '_'), input: String::from("x") };
    let resp = wobble_api(&req);
    assert_eq!(uuid::Uuid::from_u128(resp.id).to_string(), text);
}

#[test]
fn new_request_gets_a_fresh_v4_id() {
    let a = WobbleRequest::new(String::from("hi"), WobbleOptions::default());
    let b = WobbleRequest::new(String::from("hi"), WobbleOptions::default());
    assert_ne!(a.id, 0);
    assert_eq!((a.id >> 76) & 0xf, 4);
    assert_eq!((a.id >> 62) & 0x3, 2);
    assert_eq!(uuid::Uuid::from_u128(a.id).get_version_num(), 4);
    assert_ne!(a.id, b.id);
    assert_eq!(a.input, "hi");
    assert_eq!(a.options.seed, 32);
}
