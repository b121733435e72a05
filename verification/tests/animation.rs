use dna_animation::engine::App;
use dna_animation::frame::Dna;
use dna_animation::pair::{pair_from_byte, NucleotidePair};

const ALL_PAIRS: [NucleotidePair; 4] = [
    NucleotidePair::AdenineThymine,
    NucleotidePair::ThymineAdenine,
    NucleotidePair::CytosineGuanine,
    NucleotidePair::GuanineCytosine,
];

#[test]
fn default_set_shape() {
    let d = Dna::new();
    assert_eq!(d.rows.len(), 18);
    assert_eq!(d.pause_ms, 150);
    assert_eq!(d.rows[0], "         ##");
    assert_eq!(d.rows[9], "      ##");
    assert_eq!(d.rows[1], "        #{}-{}#");
    assert_eq!(d.rows[17], "        #{}-{}#");
}

#[test]
fn cap_rows_verbatim() {
    let d = Dna::new();
    for p in ALL_PAIRS {
        assert_eq!(d.render_frame(0, p), "         ##");
        assert_eq!(d.render_frame(9, p), "      ##");
    }
}

#[test]
fn substitution_fills_both_slots_from_one_pair() {
    let d = Dna::new();
    assert_eq!(d.render_frame(1, NucleotidePair::AdenineThymine), "        #A-T#");
    assert_eq!(d.render_frame(1, NucleotidePair::ThymineAdenine), "        #T-A#");
    assert_eq!(d.render_frame(1, NucleotidePair::CytosineGuanine), "        #C-G#");
    assert_eq!(d.render_frame(1, NucleotidePair::GuanineCytosine), "        #G-C#");
    assert_eq!(d.render_frame(2, NucleotidePair::CytosineGuanine), "       #C---G#");
    assert_eq!(d.render_frame(4, NucleotidePair::AdenineThymine), "     #A------T#");
    assert_eq!(d.render_frame(17, NucleotidePair::GuanineCytosine), "        #G-C#");
}

#[test]
fn pair_from_byte_cycles_through_the_four_pairs() {
    assert_eq!(pair_from_byte(0), NucleotidePair::AdenineThymine);
    assert_eq!(pair_from_byte(1), NucleotidePair::ThymineAdenine);
    assert_eq!(pair_from_byte(2), NucleotidePair::CytosineGuanine);
    assert_eq!(pair_from_byte(3), NucleotidePair::GuanineCytosine);
    assert_eq!(pair_from_byte(4), NucleotidePair::AdenineThymine);
    assert_eq!(pair_from_byte(7), NucleotidePair::GuanineCytosine);
    assert_eq!(pair_from_byte(254), NucleotidePair::CytosineGuanine);
    assert_eq!(pair_from_byte(255), NucleotidePair::GuanineCytosine);
}

#[test]
fn index_sequence_is_cyclic() {
    let mut app = App::new(Dna::new());
    assert_eq!(app.index(), 0);
    for k in 1..=17usize {
        let line = app.tick();
        assert!(line.is_some());
        assert_eq!(app.index(), k);
    }
    let line = app.tick();
    assert!(line.is_some());
    assert_eq!(app.index(), 0);
    assert_eq!(line.unwrap(), "         ##");
    app.tick();
    assert_eq!(app.index(), 1);
}

#[test]
fn ninth_row_is_the_lower_cap() {
    let mut app = App::new(Dna::new());
    let mut ninth = None;
    for k in 1..=9usize {
        let line = app.tick().expect("running loop must emit a line");
        if k == 9 {
            ninth = Some(line);
        }
    }
    assert_eq!(app.index(), 9);
    assert_eq!(ninth.unwrap(), "      ##");
}

#[test]
fn shutdown_is_idempotent() {
    let mut app = App::new(Dna::new());
    app.tick();
    let index_before = app.index();
    app.signal();
    app.signal();
    app.signal();
    assert!(!app.is_running());
    assert_eq!(app.tick(), None);
    assert_eq!(app.index(), index_before);
}

#[test]
fn no_output_after_shutdown_is_observed() {
    let mut app = App::new(Dna::new());
    for _ in 0..3 {
        assert!(app.tick().is_some());
    }
    app.signal();
    let frozen = app.index();
    for _ in 0..5 {
        assert_eq!(app.tick(), None);
        assert_eq!(app.index(), frozen);
        assert!(!app.is_running());
    }
}

#[test]
fn first_tick_renders_row_one_with_some_pair() {
    let expected = ["        #A-T#", "        #T-A#", "        #C-G#", "        #G-C#"];
    for _ in 0..100 {
        let mut app = App::new(Dna::new());
        let line = app.tick().expect("running loop must emit a line");
        assert!(expected.contains(&line.as_str()));
    }
}

#[test]
fn every_emitted_line_uses_one_whole_pair() {
    let mut app = App::new(Dna::new());
    let d = Dna::new();
    for _ in 0..200 {
        let line = app.tick().expect("running loop must emit a line");
        let i = app.index();
        let matches_some_pair = ALL_PAIRS.iter().any(|&p| d.render_frame(i, p) == line);
        assert!(matches_some_pair);
    }
}
