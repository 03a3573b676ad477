//! What rendering does to a template, stated over the parts of its text.
//!
//! Rendering is textual: one replacement after the other over the whole
//! text. A template's text can also be read as a sequence of pieces, literal
//! text and holes. This module proves that the two readings agree: the
//! rendered text is the literal pieces with each hole of a placeholder that
//! was filled in replaced by exactly the value of that placeholder, and no
//! marker of such a placeholder is left in it.
//!
//! This holds where two opening braces in a row stand nowhere but at the
//! head of a marker: where no value that is filled in holds two in a row,
//! and the literal pieces keep the holes apart.

use crate::config::ConfigView;
use crate::render::{filled_in, rendered, value_of};
use crate::template::Placeholder;
use crate::text::{
    lemma_replaced_brings_nothing_in, lemma_replaced_skips, lemma_replaced_without_occurrence,
    occurs, occurs_at,
};
use vstd::prelude::*;

verus! {

/// A part of a template's text: literal text, or the marker of a
/// placeholder.
pub enum Piece {
    /// Text that is copied as it stands.
    Text(Seq<char>),
    /// A place for a value.
    Hole(Placeholder),
}

/// No opening brace stands in `s`.
pub open spec fn plain(s: Seq<char>) -> bool {
    !s.contains('{')
}

/// Two opening braces stand in a row at offset `i` of `s`.
pub open spec fn doubled_at(s: Seq<char>, i: int) -> bool {
    &&& 0 <= i
    &&& i + 1 < s.len()
    &&& s[i] == '{'
    &&& s[i + 1] == '{'
}

/// Nowhere in `s` do two opening braces stand in a row.
pub open spec fn no_double(s: Seq<char>) -> bool {
    forall|i: int| !doubled_at(s, i)
}

/// A literal that keeps its neighbours apart: it is not empty, neither
/// begins nor ends with an opening brace, and holds no two in a row.
pub open spec fn closed(t: Seq<char>) -> bool {
    &&& t.len() > 0
    &&& t[0] != '{'
    &&& t[t.len() - 1] != '{'
    &&& no_double(t)
}

/// The pieces keep the holes apart: every literal piece is closed, and a
/// hole is followed by a literal piece or by nothing.
pub open spec fn pieces_apart(pieces: Seq<Piece>) -> bool {
    &&& forall|i: int|
        0 <= i < pieces.len() ==> (#[trigger] pieces[i] matches Piece::Text(t) ==> closed(t))
    &&& forall|i: int|
        0 <= i < pieces.len() - 1 && pieces[i] is Hole ==> #[trigger] pieces[i + 1] is Text
}

/// No value of a placeholder in `used` holds two opening braces in a row.
pub open spec fn values_fit(cfg: ConfigView, used: Set<Placeholder>) -> bool {
    forall|p: Placeholder| used.contains(p) ==> no_double(#[trigger] value_of(cfg, p))
}

/// Every hole of `pieces` is one of a placeholder in `used`.
pub open spec fn holes_within(pieces: Seq<Piece>, used: Set<Placeholder>) -> bool {
    forall|i: int|
        0 <= i < pieces.len() ==> (#[trigger] pieces[i] matches Piece::Hole(p) ==> used.contains(
            p,
        ))
}

/// The placeholders that stand in `order`.
pub open spec fn members(order: Seq<Placeholder>) -> Set<Placeholder> {
    Set::new(|p: Placeholder| order.contains(p))
}

/// The text of one piece where the placeholders in `done` are filled in: a
/// literal as it stands, a hole as its value if its placeholder is in
/// `done`, else as its marker.
pub open spec fn part(piece: Piece, cfg: ConfigView, done: Set<Placeholder>) -> Seq<char> {
    match piece {
        Piece::Text(t) => t,
        Piece::Hole(p) => if done.contains(p) {
            value_of(cfg, p)
        } else {
            p.marker()
        },
    }
}

/// The pieces with the holes of the placeholders in `done` filled by the
/// values that `cfg` holds for them, and the other holes left as markers.
pub open spec fn filled_for(pieces: Seq<Piece>, cfg: ConfigView, done: Set<Placeholder>) -> Seq<
    char,
>
    decreases pieces.len(),
{
    if pieces.len() == 0 {
        Seq::empty()
    } else {
        part(pieces[0], cfg, done) + filled_for(pieces.drop_first(), cfg, done)
    }
}

/// The text of a template made of `pieces`: each literal as it stands, each
/// hole as its marker.
pub open spec fn template_text(pieces: Seq<Piece>) -> Seq<char>
    decreases pieces.len(),
{
    if pieces.len() == 0 {
        Seq::empty()
    } else {
        (match pieces[0] {
            Piece::Text(t) => t,
            Piece::Hole(p) => p.marker(),
        }) + template_text(pieces.drop_first())
    }
}

/// The pieces with every hole filled: each literal as it stands, each hole
/// as the value that `cfg` holds for it.
pub open spec fn filled(pieces: Seq<Piece>, cfg: ConfigView) -> Seq<char>
    decreases pieces.len(),
{
    if pieces.len() == 0 {
        Seq::empty()
    } else {
        (match pieces[0] {
            Piece::Text(t) => t,
            Piece::Hole(p) => value_of(cfg, p),
        }) + filled(pieces.drop_first(), cfg)
    }
}

/// A marker is two opening braces and then no further one.
pub proof fn lemma_marker_shape(p: Placeholder)
    ensures
        p.marker().len() >= 3,
        p.marker()[0] == '{',
        p.marker()[1] == '{',
        forall|j: int| 2 <= j < p.marker().len() ==> p.marker()[j] != '{',
{
    reveal_strlit("{{project_name}}");
    reveal_strlit("{{cmake_min_version}}");
    reveal_strlit("{{cpp_standard}}");
    reveal_strlit("{{build_dir}}");
    reveal_strlit("{{build_dir_name}}");
}

/// Two markers differ at an offset that lies in both: neither begins with
/// the other.
proof fn lemma_markers_differ(p: Placeholder, q: Placeholder) -> (d: int)
    requires
        p != q,
    ensures
        0 <= d < p.marker().len(),
        d < q.marker().len(),
        p.marker()[d] != q.marker()[d],
{
    reveal_strlit("{{project_name}}");
    reveal_strlit("{{cmake_min_version}}");
    reveal_strlit("{{cpp_standard}}");
    reveal_strlit("{{build_dir}}");
    reveal_strlit("{{build_dir_name}}");
    if (p == Placeholder::BuildDir && q == Placeholder::BuildDirName) || (p
        == Placeholder::BuildDirName && q == Placeholder::BuildDir) {
        11
    } else if (p == Placeholder::CmakeMinVersion && q == Placeholder::CppStandard) || (p
        == Placeholder::CppStandard && q == Placeholder::CmakeMinVersion) {
        3
    } else {
        2
    }
}

/// A text without any opening brace holds no two in a row.
pub proof fn lemma_plain_has_no_double(s: Seq<char>)
    requires
        plain(s),
    ensures
        no_double(s),
{
    assert forall|i: int| !doubled_at(s, i) by {
        if 0 <= i < s.len() {
            assert(s.contains(s[i]));
        }
    }
}

/// The name of a build directory without any opening brace holds none
/// either.
pub proof fn lemma_plain_build_dir_name(cfg: ConfigView)
    requires
        plain(cfg.build_dir),
    ensures
        plain(value_of(cfg, Placeholder::BuildDirName)),
        no_double(value_of(cfg, Placeholder::BuildDirName)),
{
    reveal_strlit("");
    assert(!""@.contains('{'));
    lemma_replaced_brings_nothing_in(cfg.build_dir, "./"@, ""@, '{');
    lemma_plain_has_no_double(value_of(cfg, Placeholder::BuildDirName));
}

/// What holds of all pieces holds of all but the first.
proof fn lemma_rest_apart(pieces: Seq<Piece>, used: Set<Placeholder>)
    requires
        pieces_apart(pieces),
        pieces.len() > 0,
    ensures
        pieces_apart(pieces.drop_first()),
        holes_within(pieces, used) ==> holes_within(pieces.drop_first(), used),
{
    let rest = pieces.drop_first();
    assert forall|i: int| 0 <= i < rest.len() implies (#[trigger] rest[i] matches Piece::Text(
        t,
    ) ==> closed(t)) by {
        assert(rest[i] == pieces[i + 1]);
    }
    assert forall|i: int| 0 <= i < rest.len() - 1 && rest[i] is Hole implies #[trigger] rest[i
        + 1] is Text by {
        assert(rest[i] == pieces[i + 1]);
        assert(rest[i + 1] == pieces[i + 1 + 1]);
    }
    if holes_within(pieces, used) {
        assert forall|i: int| 0 <= i < rest.len() implies (#[trigger] rest[i] matches Piece::Hole(
            p,
        ) ==> used.contains(p)) by {
            assert(rest[i] == pieces[i + 1]);
        }
    }
}

/// The marker of `p` stands at none of the offsets of the first piece,
/// unless that piece is an open hole of `p` itself.
proof fn lemma_no_marker_in_head(
    pieces: Seq<Piece>,
    cfg: ConfigView,
    done: Set<Placeholder>,
    p: Placeholder,
    j: int,
)
    requires
        pieces_apart(pieces),
        values_fit(cfg, done),
        pieces.len() > 0,
        pieces[0] == Piece::Hole(p) ==> done.contains(p),
        0 <= j < part(pieces[0], cfg, done).len(),
    ensures
        !occurs_at(filled_for(pieces, cfg, done), p.marker(), j),
{
    let head = part(pieces[0], cfg, done);
    let rest = pieces.drop_first();
    let tail = filled_for(rest, cfg, done);
    let text = head + tail;
    let m = p.marker();
    lemma_marker_shape(p);
    if occurs_at(text, m, j) {
        let window = text.subrange(j, j + m.len());
        assert(window[0] == text[j]);
        assert(window[1] == text[j + 1]);
        assert(window[2] == text[j + 2]);
        match pieces[0] {
            Piece::Text(t) => {
                assert(closed(t));
                assert(t[j] == '{');
                assert(text[j + 1] == t[j + 1]);
                assert(doubled_at(t, j));
            },
            Piece::Hole(q) => {
                if done.contains(q) {
                    let v = value_of(cfg, q);
                    assert(no_double(v));
                    if j + 1 < v.len() {
                        assert(text[j + 1] == v[j + 1]);
                        assert(doubled_at(v, j));
                    } else {
                        assert(rest.len() > 0) by {
                            if rest.len() == 0 {
                                assert(tail.len() == 0);
                            }
                        }
                        assert(rest[0] == pieces[1]);
                        assert(pieces[0int + 1] is Text);
                        let t = rest[0]->Text_0;
                        assert(closed(t));
                        assert(tail == t + filled_for(rest.drop_first(), cfg, done));
                        assert(text[j + 1] == t[0]);
                    }
                } else {
                    lemma_marker_shape(q);
                    if j == 0 {
                        let d = lemma_markers_differ(p, q);
                        assert(window[d] == text[d]);
                    } else if j == 1 {
                        assert(text[2] == head[2]);
                    } else {
                        assert(text[j] == head[j]);
                    }
                }
            },
        }
    }
}

/// Filling in one more placeholder is one replacement over the whole text.
proof fn lemma_fill_step(
    pieces: Seq<Piece>,
    cfg: ConfigView,
    done: Set<Placeholder>,
    p: Placeholder,
)
    requires
        pieces_apart(pieces),
        values_fit(cfg, done.insert(p)),
    ensures
        filled_in(filled_for(pieces, cfg, done), cfg, p) == filled_for(
            pieces,
            cfg,
            done.insert(p),
        ),
    decreases pieces.len(),
{
    let m = p.marker();
    let v = value_of(cfg, p);
    lemma_marker_shape(p);
    assert(values_fit(cfg, done)) by {
        assert forall|q: Placeholder| done.contains(q) implies no_double(
            #[trigger] value_of(cfg, q),
        ) by {
            assert(done.insert(p).contains(q));
        }
    }
    if pieces.len() > 0 {
        let rest = pieces.drop_first();
        lemma_rest_apart(pieces, done);
        lemma_fill_step(rest, cfg, done, p);
        let head = part(pieces[0], cfg, done);
        let tail = filled_for(rest, cfg, done);
        let text = head + tail;
        let k = head.len() as int;
        assert(text.subrange(k, text.len() as int) =~= tail);
        if pieces[0] == Piece::Hole(p) && !done.contains(p) {
            assert(text.subrange(0, k) =~= m);
        } else {
            assert forall|j: int| 0 <= j < k implies !occurs_at(text, m, j) by {
                lemma_no_marker_in_head(pieces, cfg, done, p, j);
            }
            lemma_replaced_skips(text, m, v, k);
            assert(text.subrange(0, k) =~= head);
        }
    }
}

/// Where every open hole of `p` is filled, or there is none, the marker of
/// `p` stands nowhere in the text.
proof fn lemma_no_marker_left(
    pieces: Seq<Piece>,
    cfg: ConfigView,
    done: Set<Placeholder>,
    p: Placeholder,
)
    requires
        pieces_apart(pieces),
        values_fit(cfg, done),
        forall|i: int| 0 <= i < pieces.len() && #[trigger] pieces[i] == Piece::Hole(p) ==> done.contains(p),
    ensures
        !occurs(filled_for(pieces, cfg, done), p.marker()),
    decreases pieces.len(),
{
    let m = p.marker();
    let text = filled_for(pieces, cfg, done);
    lemma_marker_shape(p);
    if pieces.len() > 0 {
        let rest = pieces.drop_first();
        lemma_rest_apart(pieces, done);
        assert forall|i: int| 0 <= i < rest.len() && #[trigger] rest[i] == Piece::Hole(
            p,
        ) implies done.contains(p) by {
            assert(rest[i] == pieces[i + 1]);
        }
        lemma_no_marker_left(rest, cfg, done, p);
        let head = part(pieces[0], cfg, done);
        let tail = filled_for(rest, cfg, done);
        let k = head.len() as int;
        assert forall|at: int| !occurs_at(text, m, at) by {
            if occurs_at(text, m, at) {
                if at < k {
                    lemma_no_marker_in_head(pieces, cfg, done, p, at);
                } else {
                    assert(tail.subrange(at - k, at - k + m.len()) =~= text.subrange(
                        at,
                        at + m.len(),
                    ));
                    assert(occurs_at(tail, m, at - k));
                }
            }
        }
    }
}

/// With no placeholder filled, the pieces give the template's text; with
/// every hole filled, the filled text.
proof fn lemma_filled_for_ends(pieces: Seq<Piece>, cfg: ConfigView, done: Set<Placeholder>)
    ensures
        done == Set::<Placeholder>::empty() ==> filled_for(pieces, cfg, done) == template_text(
            pieces,
        ),
        holes_within(pieces, done) ==> filled_for(pieces, cfg, done) == filled(pieces, cfg),
    decreases pieces.len(),
{
    if pieces.len() > 0 {
        let rest = pieces.drop_first();
        lemma_filled_for_ends(rest, cfg, done);
        if holes_within(pieces, done) {
            assert forall|i: int| 0 <= i < rest.len() implies (
            #[trigger] rest[i] matches Piece::Hole(p) ==> done.contains(p)) by {
                assert(rest[i] == pieces[i + 1]);
            }
            assert(pieces[0] matches Piece::Hole(p) ==> done.contains(p));
        }
    }
}

/// Rendering fills the holes. Where the pieces of a template keep the holes
/// apart, and no value of a placeholder in `order` holds two opening braces
/// in a row, the rendered text is the pieces with each hole of a placeholder
/// in `order` replaced by exactly the value of that placeholder. The other
/// holes stay as markers, and no marker of a placeholder in `order` is left.
pub proof fn lemma_render_fills_holes(
    pieces: Seq<Piece>,
    cfg: ConfigView,
    order: Seq<Placeholder>,
)
    requires
        pieces_apart(pieces),
        values_fit(cfg, members(order)),
    ensures
        rendered(template_text(pieces), cfg, order) == filled_for(pieces, cfg, members(order)),
        forall|p: Placeholder|
            order.contains(p) ==> !occurs(
                rendered(template_text(pieces), cfg, order),
                #[trigger] p.marker(),
            ),
    decreases order.len(),
{
    let used = members(order);
    if order.len() == 0 {
        assert(used =~= Set::<Placeholder>::empty());
        lemma_filled_for_ends(pieces, cfg, used);
    } else {
        let before = order.drop_last();
        let p = order.last();
        let done = members(before);
        assert(used =~= done.insert(p)) by {
            assert forall|q: Placeholder| used.contains(q) <==> done.insert(p).contains(q) by {
                if order.contains(q) {
                    let i = choose|i: int| 0 <= i < order.len() && order[i] == q;
                    if i < order.len() - 1 {
                        assert(before[i] == q);
                    }
                }
                if before.contains(q) {
                    let i = choose|i: int| 0 <= i < before.len() && before[i] == q;
                    assert(order[i] == q);
                }
                assert(order[order.len() - 1] == p);
            }
        }
        assert(values_fit(cfg, done)) by {
            assert forall|q: Placeholder| done.contains(q) implies no_double(
                #[trigger] value_of(cfg, q),
            ) by {
                assert(used.contains(q));
            }
        }
        lemma_render_fills_holes(pieces, cfg, before);
        lemma_fill_step(pieces, cfg, done, p);
    }
    assert forall|p: Placeholder| order.contains(p) implies !occurs(
        filled_for(pieces, cfg, used),
        #[trigger] p.marker(),
    ) by {
        assert(used.contains(p));
        lemma_no_marker_left(pieces, cfg, used, p);
    }
}

/// Rendering with every placeholder that has a hole leaves no marker at
/// all. Under the conditions of `lemma_render_fills_holes`, and where every
/// hole of the pieces is one of a placeholder in `order`, the rendered text
/// is the pieces with every hole filled, and no marker of any placeholder
/// stands in it.
pub proof fn lemma_render_fills_all_holes(
    pieces: Seq<Piece>,
    cfg: ConfigView,
    order: Seq<Placeholder>,
)
    requires
        pieces_apart(pieces),
        values_fit(cfg, members(order)),
        holes_within(pieces, members(order)),
    ensures
        rendered(template_text(pieces), cfg, order) == filled(pieces, cfg),
        forall|p: Placeholder| !occurs(filled(pieces, cfg), #[trigger] p.marker()),
{
    let used = members(order);
    lemma_render_fills_holes(pieces, cfg, order);
    lemma_filled_for_ends(pieces, cfg, used);
    assert forall|p: Placeholder| !occurs(filled(pieces, cfg), #[trigger] p.marker()) by {
        assert forall|i: int| 0 <= i < pieces.len() && #[trigger] pieces[i] == Piece::Hole(
            p,
        ) implies used.contains(p) by {}
        lemma_no_marker_left(pieces, cfg, used, p);
    }
}

/// A text in which no marker of a placeholder in `order` stands is rendered
/// as it is: the substitution is textual, and what is no such marker passes
/// through.
pub proof fn lemma_render_without_markers(
    text: Seq<char>,
    cfg: ConfigView,
    order: Seq<Placeholder>,
)
    requires
        forall|p: Placeholder| order.contains(p) ==> !occurs(text, #[trigger] p.marker()),
    ensures
        rendered(text, cfg, order) == text,
    decreases order.len(),
{
    if order.len() > 0 {
        let before = order.drop_last();
        let p = order.last();
        assert forall|q: Placeholder| before.contains(q) implies !occurs(
            text,
            #[trigger] q.marker(),
        ) by {
            let i = choose|i: int| 0 <= i < before.len() && before[i] == q;
            assert(order[i] == q);
        }
        lemma_render_without_markers(text, cfg, before);
        assert(order[order.len() - 1] == p);
        lemma_marker_shape(p);
        lemma_replaced_without_occurrence(text, p.marker(), value_of(cfg, p));
    }
}

/// Rendering reads no value but those of the placeholders in `order`: two
/// configurations that agree on them give the same text.
pub proof fn lemma_render_reads_its_placeholders(
    text: Seq<char>,
    one: ConfigView,
    other: ConfigView,
    order: Seq<Placeholder>,
)
    requires
        forall|p: Placeholder|
            order.contains(p) ==> #[trigger] value_of(one, p) == value_of(other, p),
    ensures
        rendered(text, one, order) == rendered(text, other, order),
    decreases order.len(),
{
    if order.len() > 0 {
        let before = order.drop_last();
        assert forall|q: Placeholder| before.contains(q) implies #[trigger] value_of(one, q)
            == value_of(other, q) by {
            let i = choose|i: int| 0 <= i < before.len() && before[i] == q;
            assert(order[i] == q);
        }
        lemma_render_reads_its_placeholders(text, one, other, before);
        assert(order[order.len() - 1] == order.last());
    }
}

} // verus!
