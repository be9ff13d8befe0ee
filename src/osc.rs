//! Translation of control messages (an address plus typed arguments) into the
//! list of atoms that the synthesis engine accepts.
use vstd::prelude::*;

verus! {

/// One value of an engine message: a number or a symbol.
///
/// The number type is a parameter so that the translation logic does not
/// depend on how numbers are represented.
#[derive(Debug, PartialEq)]
pub enum Atom<N> {
    Float(N),
    Symbol(String),
}

/// What an `Atom` denotes: the number itself, or the characters of the symbol.
pub enum AtomView<N> {
    Float(N),
    Symbol(Seq<char>),
}

impl<N> View for Atom<N> {
    type V = AtomView<N>;

    open spec fn view(&self) -> AtomView<N> {
        match self {
            Atom::Float(n) => AtomView::Float(*n),
            Atom::Symbol(s) => AtomView::Symbol(s@),
        }
    }
}

/// The pieces of `s` between occurrences of `sep`, in order.  There is always
/// at least one piece; an empty string gives one empty piece.
pub open spec fn split_on(s: Seq<char>, sep: char) -> Seq<Seq<char>>
    decreases s.len(),
{
    if s.len() == 0 {
        seq![Seq::<char>::empty()]
    } else {
        let rest = split_on(s.drop_first(), sep);
        if s[0] == sep {
            seq![Seq::<char>::empty()] + rest
        } else {
            rest.update(0, seq![s[0]] + rest[0])
        }
    }
}

/// The symbols that an address contributes: its slash-separated segments,
/// without the first one (the routing prefix, empty for an address that
/// starts with a slash).
pub open spec fn address_atoms<N>(addr: Seq<char>) -> Seq<AtomView<N>> {
    split_on(addr, '/').drop_first().map_values(|seg: Seq<char>| AtomView::<N>::Symbol(seg))
}

/// One argument of a control message, by its wire type.  Integers, floats
/// and doubles carry their value as a number of type `N`; strings carry their
/// text; the other kinds carry nothing the engine can take.
#[derive(Debug, PartialEq)]
pub enum OscArg<N> {
    Int(N),
    Float(N),
    Double(N),
    Str(String),
    Blob,
    Time,
    Long,
    Other,
}

/// The atom an argument maps to: every numeric kind a number, a string a
/// symbol, and no atom for any other kind.
pub open spec fn osc_arg_atom<N>(a: OscArg<N>) -> Option<AtomView<N>> {
    match a {
        OscArg::Int(n) => Some(AtomView::Float(n)),
        OscArg::Float(n) => Some(AtomView::Float(n)),
        OscArg::Double(n) => Some(AtomView::Float(n)),
        OscArg::Str(s) => Some(AtomView::Symbol(s@)),
        _ => None,
    }
}

pub open spec fn option_view<N>(r: Option<Atom<N>>) -> Option<AtomView<N>> {
    match r {
        Some(x) => Some(x@),
        None => None,
    }
}

/// The atoms of the arguments that map to one, in order; the others are
/// dropped.
pub open spec fn kept_args<N>(args: Seq<OscArg<N>>) -> Seq<AtomView<N>>
    decreases args.len(),
{
    if args.len() == 0 {
        Seq::empty()
    } else {
        let front = kept_args(args.drop_last());
        match osc_arg_atom(args.last()) {
            Some(a) => front.push(a),
            None => front,
        }
    }
}

/// The engine message for an address and its arguments.
pub open spec fn translation<N>(addr: Seq<char>, args: Seq<OscArg<N>>) -> Seq<AtomView<N>> {
    address_atoms::<N>(addr) + kept_args(args)
}

pub open spec fn atoms_view<N>(v: Seq<Atom<N>>) -> Seq<AtomView<N>> {
    v.map_values(|a: Atom<N>| a@)
}

pub proof fn lemma_split_nonempty(s: Seq<char>, sep: char)
    ensures
        split_on(s, sep).len() >= 1,
    decreases s.len(),
{
    if s.len() > 0 {
        lemma_split_nonempty(s.drop_first(), sep);
    }
}

/// Relies on `str::split` with a `char` pattern: the pieces between the
/// occurrences of the separator, in order, each copied into a `String`.
#[verifier::external_body]
fn split_segments(s: &str, sep: char) -> (r: Vec<String>)
    ensures
        r@.map_values(|x: String| x@) == split_on(s@, sep),
{
    s.split(sep).map(|x| x.to_string()).collect()
}

fn arg_atom<N: Copy>(a: &OscArg<N>) -> (r: Option<Atom<N>>)
    ensures
        option_view(r) == osc_arg_atom(*a),
{
    match a {
        OscArg::Int(n) => Some(Atom::Float(*n)),
        OscArg::Float(n) => Some(Atom::Float(*n)),
        OscArg::Double(n) => Some(Atom::Float(*n)),
        OscArg::Str(s) => Some(Atom::Symbol(s.clone())),
        _ => None,
    }
}

/// Maps one argument to the atom the engine takes: a number for an integer,
/// a float or a double, a symbol for a string, and nothing for any other
/// kind, which is dropped without error.
pub fn osc_type_to_atom<N: Copy>(a: OscArg<N>) -> (r: Option<Atom<N>>)
    ensures
        option_view(r) == osc_arg_atom(a),
{
    arg_atom(&a)
}

/// The symbols of an address: each slash-separated segment but the first.
pub fn address_to_atoms<N>(addr: &str) -> (r: Vec<Atom<N>>)
    ensures
        atoms_view(r@) == address_atoms::<N>(addr@),
{
    let segs = split_segments(addr, '/');
    proof {
        lemma_split_nonempty(addr@, '/');
        assert(segs@.len() == split_on(addr@, '/').len());
    }
    let ghost target = address_atoms::<N>(addr@);
    let mut r: Vec<Atom<N>> = Vec::new();
    let mut i: usize = 1;
    while i < segs.len()
        invariant
            1 <= i <= segs.len(),
            segs@.map_values(|x: String| x@) == split_on(addr@, '/'),
            target == address_atoms::<N>(addr@),
            atoms_view(r@) == target.take(i - 1),
        decreases segs.len() - i,
    {
        proof {
            assert(segs@.map_values(|x: String| x@)[i as int] == segs@[i as int]@);
        }
        let ghost old_r = r@;
        let seg = segs[i].clone();
        assert(seg@ == split_on(addr@, '/')[i as int]);
        r.push(Atom::Symbol(seg));
        assert(atoms_view(r@) =~= atoms_view(old_r).push(AtomView::Symbol(seg@)));
        assert(target[i - 1] == AtomView::<N>::Symbol(seg@));
        i = i + 1;
        assert(atoms_view(r@) =~= target.take(i - 1));
    }
    assert(target.take(i - 1) =~= target);
    r
}

/// Builds the engine message for a control message: the symbols of the
/// address (its first segment stripped), then the atom of each argument that
/// maps to one, in order; the other arguments are dropped.
pub fn translate<N: Copy>(addr: &str, args: &Vec<OscArg<N>>) -> (r: Vec<Atom<N>>)
    ensures
        atoms_view(r@) == translation(addr@, args@),
{
    let mut r = address_to_atoms(addr);
    let ghost prefix = atoms_view(r@);
    let mut i: usize = 0;
    while i < args.len()
        invariant
            0 <= i <= args@.len(),
            prefix == address_atoms::<N>(addr@),
            atoms_view(r@) == prefix + kept_args(args@.take(i as int)),
        decreases args.len() - i,
    {
        assert(args@.take(i + 1).drop_last() =~= args@.take(i as int));
        let ghost old_r = r@;
        match arg_atom(&args[i]) {
            Some(a) => {
                let ghost av = a@;
                r.push(a);
                assert(atoms_view(r@) =~= atoms_view(old_r).push(av));
            },
            None => {},
        }
        i = i + 1;
        assert(atoms_view(r@) =~= prefix + kept_args(args@.take(i as int)));
    }
    assert(args@.take(i as int) =~= args@);
    r
}

/// Translation is a function of its inputs: two calls on equal addresses and
/// equal arguments give equal engine messages.
pub proof fn lemma_translate_deterministic<N>(
    addr1: Seq<char>,
    addr2: Seq<char>,
    args1: Seq<OscArg<N>>,
    args2: Seq<OscArg<N>>,
    r1: Seq<AtomView<N>>,
    r2: Seq<AtomView<N>>,
)
    requires
        addr1 == addr2,
        args1 == args2,
        r1 == translation(addr1, args1),
        r2 == translation(addr2, args2),
    ensures
        r1 == r2,
{
}

} // verus!
