use pdradio::osc::{address_to_atoms, osc_type_to_atom, translate, Atom, OscArg};

fn sym(s: &str) -> Atom<f64> {
    Atom::Symbol(s.to_string())
}

#[test]
fn address_and_number_become_symbols_then_number() {
    let r = translate("/synth/freq", &vec![OscArg::Int(440.0)]);
    assert_eq!(r, vec![sym("synth"), sym("freq"), Atom::Float(440.0)]);
}

#[test]
fn translation_is_repeatable() {
    let args = vec![OscArg::Float(1.5), OscArg::Blob, OscArg::Str("on".to_string())];
    let a = translate("/a/b", &args);
    let b = translate("/a/b", &args);
    assert_eq!(a, b);
    assert_eq!(args, vec![OscArg::Float(1.5), OscArg::Blob, OscArg::Str("on".to_string())]);
    assert_eq!(a, vec![sym("a"), sym("b"), Atom::Float(1.5), sym("on")]);
}

#[test]
fn unmapped_arguments_are_dropped() {
    let r = translate(
        "/x",
        &vec![OscArg::Time, OscArg::Double(2.0), OscArg::Long, OscArg::Str("s".to_string()), OscArg::Other],
    );
    assert_eq!(r, vec![sym("x"), Atom::Float(2.0), sym("s")]);
}

#[test]
fn first_segment_is_stripped_even_without_slash() {
    let r: Vec<Atom<f64>> = address_to_atoms("host/vol");
    assert_eq!(r, vec![sym("vol")]);
}

#[test]
fn empty_address_gives_no_symbols() {
    let r: Vec<Atom<f64>> = address_to_atoms("");
    assert_eq!(r, vec![]);
    let r: Vec<Atom<f64>> = address_to_atoms("/");
    assert_eq!(r, vec![sym("")]);
}

#[test]
fn empty_segments_are_kept() {
    let r: Vec<Atom<f64>> = address_to_atoms("/a//b/");
    assert_eq!(r, vec![sym("a"), sym(""), sym("b"), sym("")]);
}

#[test]
fn numeric_kinds_become_numbers() {
    assert_eq!(osc_type_to_atom(OscArg::Int(440.0)), Some(Atom::Float(440.0)));
    assert_eq!(osc_type_to_atom(OscArg::Float(0.5)), Some(Atom::Float(0.5)));
    assert_eq!(osc_type_to_atom(OscArg::Double(-3.25)), Some(Atom::Float(-3.25)));
}

#[test]
fn string_kind_becomes_symbol() {
    assert_eq!(osc_type_to_atom::<f64>(OscArg::Str("saw".to_string())), Some(sym("saw")));
}

#[test]
fn other_kinds_are_dropped() {
    for a in [OscArg::<f64>::Blob, OscArg::Time, OscArg::Long, OscArg::Other] {
        assert_eq!(osc_type_to_atom(a), None);
    }
}
