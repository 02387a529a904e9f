//! Concrete syntax trees: missing pieces, atoms, identifiers and nodes.
use std::sync::Arc;
use vstd::prelude::*;

use crate::name::Name;
use crate::node_kind::SyntaxNodeKind;
use crate::span::{spec_full_span, SourceInfo, Span};
use crate::literal::Natural;
use crate::text::{char_is_alphanumeric, decimal, chars_of, push_all, string_from_chars, unicode_alphanumeric};

verus! {

/// A concrete syntax tree.
#[derive(Debug)]
pub enum Syntax {
    Missing { span: Span },
    Atom { info: SourceInfo, val: AtomVal },
    Ident { info: SourceInfo, val: Name, raw_val: String },
    Node { info: SourceInfo, kind: SyntaxNodeKind, children: Vec<Syntax> },
}

/// The value of an atom.
#[derive(Debug, PartialEq)]
pub enum AtomVal {
    Keyword(String),
    Punct(String),
    NumLit(String),
    StrLit(String),
    CharLit(String),
    ScientificLit(String),
    DocComment(String),
}

impl Clone for AtomVal {
    fn clone(&self) -> (r: Self)
        ensures
            r == *self,
    {
        match self {
            AtomVal::Keyword(s) => AtomVal::Keyword(s.clone()),
            AtomVal::Punct(s) => AtomVal::Punct(s.clone()),
            AtomVal::NumLit(s) => AtomVal::NumLit(s.clone()),
            AtomVal::StrLit(s) => AtomVal::StrLit(s.clone()),
            AtomVal::CharLit(s) => AtomVal::CharLit(s.clone()),
            AtomVal::ScientificLit(s) => AtomVal::ScientificLit(s.clone()),
            AtomVal::DocComment(s) => AtomVal::DocComment(s.clone()),
        }
    }
}

proof fn lemma_child_decreases(s: Syntax, i: int)
    requires
        s is Node,
        0 <= i < s->children@.len(),
    ensures
        decreases_to!(s => s->children@[i]),
{
    assert(decreases_to!(s => s->children));
    assert(decreases_to!(s->children => s->children@));
    assert(decreases_to!(s->children@ => s->children@[i]));
}

/// The same tree: equal pieces, and nodes with the same source information,
/// kind and children.
pub open spec fn same_syntax(a: Syntax, b: Syntax) -> bool
    decreases a,
{
    match a {
        Syntax::Node { info, kind, children } => b matches Syntax::Node {
            info: info2,
            kind: kind2,
            children: children2,
        } && info == info2 && kind == kind2 && same_among(children@, children2@),
        _ => a == b,
    }
}

/// The trees `cs` and `ds` are the same, position by position.
pub open spec fn same_among(cs: Seq<Syntax>, ds: Seq<Syntax>) -> bool
    decreases cs,
{
    if cs.len() == 0 {
        ds.len() == 0
    } else {
        ds.len() > 0 && same_syntax(cs[0], ds[0]) && same_among(
            cs.subrange(1, cs.len() as int),
            ds.subrange(1, ds.len() as int),
        )
    }
}

proof fn lemma_same_among_push(cs: Seq<Syntax>, ds: Seq<Syntax>, x: Syntax, y: Syntax)
    requires
        same_among(cs, ds),
        same_syntax(x, y),
    ensures
        same_among(cs.push(x), ds.push(y)),
    decreases cs.len(),
{
    if cs.len() == 0 {
        assert(ds.len() == 0);
        assert(cs.push(x)[0] == x);
        assert(ds.push(y)[0] == y);
        assert(cs.push(x).subrange(1, 1) == Seq::<Syntax>::empty());
        assert(ds.push(y).subrange(1, 1) == Seq::<Syntax>::empty());
        assert(same_among(Seq::<Syntax>::empty(), Seq::<Syntax>::empty()));
    } else {
        assert(cs.push(x)[0] == cs[0]);
        assert(ds.push(y)[0] == ds[0]);
        lemma_same_among_push(
            cs.subrange(1, cs.len() as int),
            ds.subrange(1, ds.len() as int),
            x,
            y,
        );
        assert(cs.push(x).subrange(1, cs.len() as int + 1) == cs.subrange(1, cs.len() as int).push(x));
        assert(ds.push(y).subrange(1, ds.len() as int + 1) == ds.subrange(1, ds.len() as int).push(y));
    }
}

/// `pred` answered `false` on every subtree of `s`.
pub open spec fn none_found<F: Fn(&Syntax) -> bool>(pred: F, s: Syntax) -> bool
    decreases s,
{
    pred.ensures((&s,), false) && match s {
        Syntax::Node { children, .. } => none_found_among(pred, children@),
        _ => true,
    }
}

/// `pred` answered `false` on every subtree of the trees `cs`.
pub open spec fn none_found_among<F: Fn(&Syntax) -> bool>(pred: F, cs: Seq<Syntax>) -> bool
    decreases cs,
{
    cs.len() == 0 || (none_found(pred, cs[0]) && none_found_among(
        pred,
        cs.subrange(1, cs.len() as int),
    ))
}

/// `x` is the first subtree of `s` in pre-order on which `pred` answered
/// `true`, `pred` having answered `false` on every subtree before it.
pub open spec fn found_first<F: Fn(&Syntax) -> bool>(pred: F, s: Syntax, x: Syntax) -> bool
    decreases s,
{
    (pred.ensures((&s,), true) && x == s) || (pred.ensures((&s,), false) && match s {
        Syntax::Node { children, .. } => found_first_among(pred, children@, x),
        _ => false,
    })
}

/// `x` is the first subtree in pre-order of the trees `cs` on which `pred`
/// answered `true`.
pub open spec fn found_first_among<F: Fn(&Syntax) -> bool>(
    pred: F,
    cs: Seq<Syntax>,
    x: Syntax,
) -> bool
    decreases cs,
{
    cs.len() > 0 && (found_first(pred, cs[0], x) || (none_found(pred, cs[0]) && found_first_among(
        pred,
        cs.subrange(1, cs.len() as int),
        x,
    )))
}

/// A copy of a syntax tree.
fn clone_syntax(s: &Syntax) -> (r: Syntax)
    ensures
        same_syntax(*s, r),
    decreases s,
{
    match s {
        Syntax::Missing { span } => Syntax::Missing { span: *span },
        Syntax::Atom { info, val } => Syntax::Atom { info: *info, val: val.clone() },
        Syntax::Ident { info, val, raw_val } => Syntax::Ident {
            info: *info,
            val: val.clone(),
            raw_val: raw_val.clone(),
        },
        Syntax::Node { info, kind, children } => {
            let mut cs: Vec<Syntax> = Vec::new();
            let mut i: usize = 0;
            while i < children.len()
                invariant
                    *s == (Syntax::Node { info: *info, kind: *kind, children: *children }),
                    i <= children@.len(),
                    same_among(children@.subrange(0, i as int), cs@),
                decreases children@.len() - i,
            {
                proof {
                    lemma_child_decreases(*s, i as int);
                }
                let c = clone_syntax(&children[i]);
                proof {
                    lemma_same_among_push(children@.subrange(0, i as int), cs@, children@[i as int], c);
                    assert(children@.subrange(0, i as int).push(children@[i as int])
                        == children@.subrange(0, i + 1));
                }
                cs.push(c);
                i = i + 1;
            }
            proof {
                assert(children@.subrange(0, i as int) == children@);
            }
            Syntax::Node { info: *info, kind: *kind, children: cs }
        },
    }
}

impl Clone for Syntax {
    fn clone(&self) -> (r: Self)
        ensures
            same_syntax(*self, r),
    {
        clone_syntax(self)
    }
}

/// The text an atom stands for.
pub open spec fn atom_text(v: AtomVal) -> Seq<char> {
    match v {
        AtomVal::Keyword(s) => s@,
        AtomVal::Punct(s) => s@,
        AtomVal::NumLit(s) => s@,
        AtomVal::StrLit(s) => s@,
        AtomVal::CharLit(s) => s@,
        AtomVal::ScientificLit(s) => s@,
        AtomVal::DocComment(s) => s@,
    }
}

impl AtomVal {
    /// The text of the atom (what `Display` prints).
    pub fn to_string(&self) -> (r: String)
        ensures
            r@ == atom_text(*self),
    {
        match self {
            AtomVal::Keyword(s) => s.clone(),
            AtomVal::Punct(s) => s.clone(),
            AtomVal::NumLit(s) => s.clone(),
            AtomVal::StrLit(s) => s.clone(),
            AtomVal::CharLit(s) => s.clone(),
            AtomVal::ScientificLit(s) => s.clone(),
            AtomVal::DocComment(s) => s.clone(),
        }
    }
}

/// The span of a syntax tree, trivia included.
pub open spec fn syntax_span(s: Syntax) -> Span {
    match s {
        Syntax::Missing { span } => span,
        Syntax::Atom { info, .. } => spec_full_span(info),
        Syntax::Ident { info, .. } => spec_full_span(info),
        Syntax::Node { info, .. } => spec_full_span(info),
    }
}

/// The children of a node (none for the other forms).
pub open spec fn syntax_children(s: Syntax) -> Seq<Syntax> {
    match s {
        Syntax::Node { children, .. } => children@,
        _ => Seq::empty(),
    }
}

/// A `Missing` piece occurs somewhere in `s`.
pub open spec fn has_missing_in(s: Syntax) -> bool
    decreases s,
{
    match s {
        Syntax::Missing { .. } => true,
        Syntax::Node { children, .. } => missing_among(children@),
        _ => false,
    }
}

/// A `Missing` piece occurs somewhere in one of the trees `cs`.
pub open spec fn missing_among(cs: Seq<Syntax>) -> bool
    decreases cs,
{
    if cs.len() == 0 {
        false
    } else {
        has_missing_in(cs[0]) || missing_among(cs.subrange(1, cs.len() as int))
    }
}

/// Characters that glue into one word when printed side by side.
pub open spec fn is_word_char(c: char) -> bool {
    unicode_alphanumeric(c) || c == '_' || c == '`'
}

/// A space is needed between printed `left` and `right`.
pub open spec fn needs_space(left: Seq<char>, right: Seq<char>) -> bool {
    left.len() > 0 && right.len() > 0 && is_word_char(left.last()) && is_word_char(right[0])
}

/// The printed form of `s` appended to `out`: atoms and identifiers verbatim,
/// children of nodes one after another with a space only between two word
/// characters.
pub open spec fn write_syntax(out: Seq<char>, s: Syntax) -> Seq<char>
    decreases s,
{
    match s {
        Syntax::Missing { .. } => out,
        Syntax::Atom { val, .. } => out + atom_text(val),
        Syntax::Ident { raw_val, .. } => out + raw_val@,
        Syntax::Node { children, .. } => write_children(out, children@),
    }
}

/// The printed forms of `cs` appended to `out` in order.
pub open spec fn write_children(out: Seq<char>, cs: Seq<Syntax>) -> Seq<char>
    decreases cs,
{
    if cs.len() == 0 {
        out
    } else {
        let chunk = write_syntax(Seq::empty(), cs[0]);
        let out1 = if chunk.len() == 0 {
            out
        } else if needs_space(out, chunk) {
            out.push(' ') + chunk
        } else {
            out + chunk
        };
        write_children(out1, cs.subrange(1, cs.len() as int))
    }
}

fn is_word_char_exec(c: char) -> (b: bool)
    ensures
        b == is_word_char(c),
{
    char_is_alphanumeric(c) || c == '_' || c == '`'
}

fn needs_space_between(left: &Vec<char>, right: &Vec<char>) -> (b: bool)
    ensures
        b == needs_space(left@, right@),
{
    if left.len() == 0 || right.len() == 0 {
        return false;
    }
    is_word_char_exec(left[left.len() - 1]) && is_word_char_exec(right[0])
}

impl Syntax {
    pub fn missing(span: Span) -> (r: Self)
        ensures
            r == (Syntax::Missing { span }),
    {
        Syntax::Missing { span }
    }

    pub fn atom(info: SourceInfo, val: AtomVal) -> (r: Self)
        ensures
            r == (Syntax::Atom { info, val }),
    {
        Syntax::Atom { info, val }
    }

    pub fn ident(info: SourceInfo, val: Name, raw_val: &str) -> (r: Self)
        ensures
            r matches Syntax::Ident { info: i, val: v, raw_val: rv } && i == info && v == val && rv@
                == raw_val@,
    {
        Syntax::Ident { info, val, raw_val: raw_val.to_owned() }
    }

    pub fn node(info: SourceInfo, kind: SyntaxNodeKind, children: Vec<Syntax>) -> (r: Self)
        ensures
            r == (Syntax::Node { info, kind, children }),
    {
        Syntax::Node { info, kind, children }
    }

    /// An identifier whose name is shared through an `Arc`.
    pub fn ident_arc(info: SourceInfo, val: Arc<Name>, raw_val: &str) -> (r: Self)
        ensures
            r matches Syntax::Ident { info: i, val: v, raw_val: rv } && i == info && v == *val
                && rv@ == raw_val@,
    {
        Syntax::ident(info, (*val).clone(), raw_val)
    }

    /// A numeric literal atom holding the decimal digits of `val`.
    pub fn num_lit_biguint(info: SourceInfo, val: Natural) -> (r: Self)
        ensures
            r matches Syntax::Atom { info: i, val: AtomVal::NumLit(s) } && i == info && s@
                == decimal(val@),
    {
        Syntax::atom(info, AtomVal::NumLit(val.to_decimal()))
    }

    pub fn span(&self) -> (r: Span)
        ensures
            r == syntax_span(*self),
    {
        match self {
            Syntax::Missing { span } => *span,
            Syntax::Atom { info, .. } => info.full_span(),
            Syntax::Ident { info, .. } => info.full_span(),
            Syntax::Node { info, .. } => info.full_span(),
        }
    }

    pub fn source_info(&self) -> (r: SourceInfo)
        ensures
            r == match *self {
                Syntax::Missing { span } => SourceInfo {
                    leading: Span { start: 0, end: 0 },
                    span,
                    trailing: Span { start: 0, end: 0 },
                },
                Syntax::Atom { info, .. } => info,
                Syntax::Ident { info, .. } => info,
                Syntax::Node { info, .. } => info,
            },
    {
        match self {
            Syntax::Missing { span } => SourceInfo::new(*span),
            Syntax::Atom { info, .. } => *info,
            Syntax::Ident { info, .. } => *info,
            Syntax::Node { info, .. } => *info,
        }
    }

    pub fn kind(&self) -> (r: Option<SyntaxNodeKind>)
        ensures
            r == match *self {
                Syntax::Node { kind, .. } => Some(kind),
                _ => None::<SyntaxNodeKind>,
            },
    {
        match self {
            Syntax::Node { kind, .. } => Some(*kind),
            _ => None,
        }
    }

    pub fn is_missing(&self) -> (b: bool)
        ensures
            b == self is Missing,
    {
        match self {
            Syntax::Missing { .. } => true,
            _ => false,
        }
    }

    pub fn is_atom(&self) -> (b: bool)
        ensures
            b == self is Atom,
    {
        match self {
            Syntax::Atom { .. } => true,
            _ => false,
        }
    }

    pub fn is_ident(&self) -> (b: bool)
        ensures
            b == self is Ident,
    {
        match self {
            Syntax::Ident { .. } => true,
            _ => false,
        }
    }

    pub fn is_node(&self) -> (b: bool)
        ensures
            b == self is Node,
    {
        match self {
            Syntax::Node { .. } => true,
            _ => false,
        }
    }

    pub fn children(&self) -> (r: &[Syntax])
        ensures
            r@ == syntax_children(*self),
    {
        match self {
            Syntax::Node { children, .. } => children.as_slice(),
            _ => {
                let e: &[Syntax] = &[];
                proof {
                    assert(e@ == Seq::<Syntax>::empty());
                }
                e
            },
        }
    }

    pub fn num_children(&self) -> (r: usize)
        ensures
            r == syntax_children(*self).len(),
    {
        self.children().len()
    }

    pub fn child(&self, idx: usize) -> (r: Option<&Syntax>)
        ensures
            r == if idx < syntax_children(*self).len() {
                Some(&syntax_children(*self)[idx as int])
            } else {
                None::<&Syntax>
            },
    {
        let cs = self.children();
        if idx < cs.len() {
            Some(&cs[idx])
        } else {
            None
        }
    }

    pub fn ident_name(&self) -> (r: Option<&Name>)
        ensures
            r == match *self {
                Syntax::Ident { val, .. } => Some(&val),
                _ => None::<&Name>,
            },
    {
        match self {
            Syntax::Ident { val, .. } => Some(val),
            _ => None,
        }
    }

    pub fn atom_val(&self) -> (r: Option<&AtomVal>)
        ensures
            r == match *self {
                Syntax::Atom { val, .. } => Some(&val),
                _ => None::<&AtomVal>,
            },
    {
        match self {
            Syntax::Atom { val, .. } => Some(val),
            _ => None,
        }
    }

    pub fn node_kind_matches(&self, kind: SyntaxNodeKind) -> (b: bool)
        ensures
            b == (self matches Syntax::Node { kind: k, .. } && k == kind),
    {
        match self {
            Syntax::Node { kind: this_kind, .. } => *this_kind == kind,
            _ => false,
        }
    }

    /// Visit every subtree in pre-order.
    pub fn for_each<F: FnMut(&Syntax)>(&self, f: &mut F)
        requires
            forall|g: F, s: &Syntax| #[trigger] call_requires(g, (s,)),
        decreases self,
    {
        f(self);
        if let Syntax::Node { children, .. } = self {
            let mut i: usize = 0;
            while i < children.len()
                invariant
                    forall|g: F, s: &Syntax| #[trigger] call_requires(g, (s,)),
                    *self is Node,
                    self->children == *children,
                decreases children@.len() - i,
            {
                proof {
                    lemma_child_decreases(*self, i as int);
                }
                children[i].for_each(f);
                i = i + 1;
            }
        }
    }

    /// The first subtree in pre-order for which `pred` holds.
    pub fn find<F: Fn(&Syntax) -> bool>(&self, pred: &F) -> (r: Option<&Syntax>)
        requires
            forall|s: &Syntax| #[trigger] pred.requires((s,)),
        ensures
            r matches Some(x) ==> found_first(*pred, *self, *x),
            r is None ==> none_found(*pred, *self),
        decreases self,
    {
        if pred(self) {
            return Some(self);
        }
        if let Syntax::Node { children, .. } = self {
            let mut i: usize = 0;
            proof {
                assert(children@.subrange(0, children@.len() as int) == children@);
            }
            while i < children.len()
                invariant
                    forall|s: &Syntax| #[trigger] pred.requires((s,)),
                    pred.ensures((self,), false),
                    *self is Node,
                    self->children == *children,
                    i <= children@.len(),
                    forall|x: Syntax|
                        #[trigger] found_first_among(
                            *pred,
                            children@.subrange(i as int, children@.len() as int),
                            x,
                        ) ==> found_first_among(*pred, children@, x),
                    none_found_among(*pred, children@.subrange(i as int, children@.len() as int))
                        ==> none_found_among(*pred, children@),
                decreases children@.len() - i,
            {
                let ghost rest = children@.subrange(i as int, children@.len() as int);
                proof {
                    lemma_child_decreases(*self, i as int);
                    assert(rest[0] == children@[i as int]);
                    assert(rest.subrange(1, rest.len() as int) == children@.subrange(
                        i + 1,
                        children@.len() as int,
                    ));
                }
                let found = children[i].find(pred);
                if found.is_some() {
                    proof {
                        let x = *found.unwrap();
                        assert(found_first_among(*pred, rest, x));
                    }
                    return found;
                }
                proof {
                    assert forall|x: Syntax|
                        #[trigger] found_first_among(
                            *pred,
                            children@.subrange(i + 1, children@.len() as int),
                            x,
                        ) implies found_first_among(*pred, children@, x) by {
                        assert(found_first_among(*pred, rest, x));
                    }
                }
                i = i + 1;
            }
            proof {
                assert(children@.subrange(i as int, children@.len() as int).len() == 0);
            }
        }
        None
    }

    /// Whether a `Missing` piece occurs anywhere in the tree.
    pub fn has_missing(&self) -> (b: bool)
        ensures
            b == has_missing_in(*self),
        decreases self,
    {
        match self {
            Syntax::Missing { .. } => true,
            Syntax::Node { children, .. } => {
                let mut i: usize = 0;
                proof {
                    assert(children@.subrange(0, children@.len() as int) == children@);
                }
                while i < children.len()
                    invariant
                        i <= children@.len(),
                        *self is Node,
                        self->children == *children,
                        missing_among(children@) == missing_among(
                            children@.subrange(i as int, children@.len() as int),
                        ),
                    decreases children@.len() - i,
                {
                    let ghost rest = children@.subrange(i as int, children@.len() as int);
                    proof {
                        assert(rest[0] == children@[i as int]);
                        assert(rest.subrange(1, rest.len() as int) == children@.subrange(
                            i + 1,
                            children@.len() as int,
                        ));
                    }
                    proof {
                        lemma_child_decreases(*self, i as int);
                    }
                    if children[i].has_missing() {
                        return true;
                    }
                    i = i + 1;
                }
                proof {
                    assert(children@.subrange(i as int, children@.len() as int).len() == 0);
                }
                false
            },
            _ => false,
        }
    }

    fn write_to(&self, out: &mut Vec<char>)
        ensures
            final(out)@ == write_syntax(old(out)@, *self),
        decreases self,
    {
        match self {
            Syntax::Missing { .. } => {},
            Syntax::Atom { val, .. } => {
                let t = chars_of(val.to_string().as_str());
                push_all(out, t.as_slice());
            },
            Syntax::Ident { raw_val, .. } => {
                let t = chars_of(raw_val.as_str());
                push_all(out, t.as_slice());
            },
            Syntax::Node { children, .. } => {
                let mut i: usize = 0;
                proof {
                    assert(children@.subrange(0, children@.len() as int) == children@);
                }
                while i < children.len()
                    invariant
                        i <= children@.len(),
                        *self is Node,
                        self->children == *children,
                        write_children(old(out)@, children@) == write_children(
                            out@,
                            children@.subrange(i as int, children@.len() as int),
                        ),
                    decreases children@.len() - i,
                {
                    let ghost rest = children@.subrange(i as int, children@.len() as int);
                    proof {
                        assert(rest[0] == children@[i as int]);
                        assert(rest.subrange(1, rest.len() as int) == children@.subrange(
                            i + 1,
                            children@.len() as int,
                        ));
                    }
                    let mut chunk: Vec<char> = Vec::new();
                    proof {
                        lemma_child_decreases(*self, i as int);
                    }
                    children[i].write_to(&mut chunk);
                    if chunk.len() > 0 {
                        if needs_space_between(out, &chunk) {
                            out.push(' ');
                        }
                        push_all(out, chunk.as_slice());
                    }
                    i = i + 1;
                }
                proof {
                    assert(children@.subrange(i as int, children@.len() as int).len() == 0);
                }
            },
        }
    }

    /// The printed form of the tree (what `Display` prints).
    pub fn to_string(&self) -> (r: String)
        ensures
            r@ == write_syntax(Seq::empty(), *self),
    {
        let mut out: Vec<char> = Vec::new();
        self.write_to(&mut out);
        string_from_chars(out.as_slice())
    }
}

} // verus!
