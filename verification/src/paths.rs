//! Paths as text.
//!
//! A path is a string whose components are separated by slashes. Nothing
//! here touches a file system: components are read off the text, and `.`
//! and `..` are resolved on the text alone.

use vstd::prelude::*;
use crate::split::{
    has_char, join, lemma_split_join, lemma_split_len, lemma_split_pieces, split, split_chars,
};
use crate::text::{from_chars, push_all, to_chars};

verus! {

broadcast use crate::text::lemma_deep_view_chars;

/// One component of a path.
#[derive(Debug, PartialEq, Eq)]
pub enum Component {
    /// The root directory, which starts an absolute path.
    Root,
    /// `.` at the start of a relative path.
    Cur,
    /// `..`
    Parent,
    /// A name.
    Normal(String),
}

/// The value of a `Component`.
pub enum ComponentView {
    Root,
    Cur,
    Parent,
    Normal(Seq<char>),
}

impl View for Component {
    type V = ComponentView;

    open spec fn view(&self) -> ComponentView {
        match self {
            Component::Root => ComponentView::Root,
            Component::Cur => ComponentView::Cur,
            Component::Parent => ComponentView::Parent,
            Component::Normal(name) => ComponentView::Normal(name@),
        }
    }
}

impl DeepView for Component {
    type V = ComponentView;

    open spec fn deep_view(&self) -> ComponentView {
        self@
    }
}

impl Clone for Component {
    fn clone(&self) -> (r: Self)
        ensures
            r@ == self@,
    {
        match self {
            Component::Root => Component::Root,
            Component::Cur => Component::Cur,
            Component::Parent => Component::Parent,
            Component::Normal(name) => Component::Normal(name.clone()),
        }
    }
}

/// The component `.`.
pub open spec fn dot() -> Seq<char> {
    seq!['.']
}

/// The component `..`.
pub open spec fn dot_dot() -> Seq<char> {
    seq!['.', '.']
}

/// Whether a path starts at the root.
pub open spec fn is_absolute(path: Seq<char>) -> bool {
    path.len() > 0 && path[0] == '/'
}

/// The components that the pieces between slashes stand for: empty pieces
/// and `.` stand for nothing, `..` for the parent, any other piece for a
/// name.
pub open spec fn named(pieces: Seq<Seq<char>>) -> Seq<ComponentView>
    decreases pieces.len(),
{
    if pieces.len() == 0 {
        Seq::<ComponentView>::empty()
    } else {
        let init = named(pieces.drop_last());
        let p = pieces.last();
        if p.len() == 0 || p == dot() {
            init
        } else if p == dot_dot() {
            init.push(ComponentView::Parent)
        } else {
            init.push(ComponentView::Normal(p))
        }
    }
}

/// The components of a path. Repeated slashes and a slash at the end count
/// for nothing; `.` counts only at the very start of a relative path.
pub open spec fn components(path: Seq<char>) -> Seq<ComponentView> {
    let pieces = split(path, '/');
    let head = if is_absolute(path) {
        seq![ComponentView::Root]
    } else if pieces[0] == dot() {
        seq![ComponentView::Cur]
    } else {
        Seq::<ComponentView>::empty()
    };
    head + named(pieces)
}

/// The components that are left when `.` is dropped and each `..` takes
/// away the name before it. At the root, and where nothing is left, `..`
/// takes nothing away.
pub open spec fn resolve_dots(comps: Seq<ComponentView>) -> Seq<ComponentView>
    decreases comps.len(),
{
    if comps.len() == 0 {
        Seq::<ComponentView>::empty()
    } else {
        let stack = resolve_dots(comps.drop_last());
        match comps.last() {
            ComponentView::Parent => if stack.len() == 0 || stack.last() is Root {
                stack
            } else {
                stack.drop_last()
            },
            ComponentView::Cur => stack,
            ComponentView::Root => seq![ComponentView::Root],
            ComponentView::Normal(name) => stack.push(ComponentView::Normal(name)),
        }
    }
}

/// The text of one component.
pub open spec fn component_text(c: ComponentView) -> Seq<char> {
    match c {
        ComponentView::Root => Seq::<char>::empty(),
        ComponentView::Cur => dot(),
        ComponentView::Parent => dot_dot(),
        ComponentView::Normal(name) => name,
    }
}

/// The path that a sequence of components writes.
pub open spec fn render(comps: Seq<ComponentView>) -> Seq<char> {
    if comps.len() == 1 && comps[0] is Root {
        seq!['/']
    } else {
        join(comps.map_values(|c: ComponentView| component_text(c)), seq!['/'])
    }
}

/// The path with `.` and `..` resolved on the text.
pub open spec fn normalized_path(path: Seq<char>) -> Seq<char> {
    render(resolve_dots(components(path)))
}

/// Whether `base` is `path` or one of the directories above it, component
/// by component.
pub open spec fn under(path: Seq<char>, base: Seq<char>) -> bool {
    components(base).is_prefix_of(components(path))
}

/// `tail` appended to `base` as a path: an absolute `tail` replaces `base`,
/// and a slash is put between the two where `base` does not end in one.
pub open spec fn joined(base: Seq<char>, tail: Seq<char>) -> Seq<char> {
    if is_absolute(tail) {
        tail
    } else if base.len() == 0 || base.last() == '/' {
        base + tail
    } else {
        base + seq!['/'] + tail
    }
}

/// The directory above a path, if the path names one: the path without its
/// last component. The root and the empty path have nothing above them.
pub open spec fn parent(path: Seq<char>) -> Option<Seq<char>> {
    let comps = components(path);
    if comps.len() == 0 || comps.last() is Root {
        None
    } else {
        Some(render(comps.drop_last()))
    }
}

/// Whether a text can be the name of a component: it is not empty, holds
/// no slash, and is neither `.` nor `..`.
pub open spec fn is_name(n: Seq<char>) -> bool {
    n.len() > 0 && !has_char(n, '/') && n != dot() && n != dot_dot()
}

/// Whether every name among the components is one that a path can hold.
pub open spec fn well_named(comps: Seq<ComponentView>) -> bool {
    forall|i: int|
        0 <= i < comps.len() ==> ((#[trigger] comps[i]) matches ComponentView::Normal(n)
            ==> is_name(n))
}

/// Whether the components are those of a path without `.` and `..`: the
/// root first or not at all, and names after it.
pub open spec fn plain(comps: Seq<ComponentView>) -> bool {
    forall|i: int|
        0 <= i < comps.len() ==> match #[trigger] comps[i] {
            ComponentView::Root => i == 0,
            ComponentView::Normal(n) => is_name(n),
            _ => false,
        }
}

proof fn lemma_named_names(pieces: Seq<Seq<char>>)
    requires
        forall|i: int| 0 <= i < pieces.len() ==> !has_char(#[trigger] pieces[i], '/'),
    ensures
        well_named(named(pieces)),
        forall|i: int| 0 <= i < named(pieces).len() ==> !(#[trigger] named(pieces)[i] is Root),
    decreases pieces.len(),
{
    if pieces.len() > 0 {
        let init = pieces.drop_last();
        assert forall|i: int| 0 <= i < init.len() implies !has_char(#[trigger] init[i], '/') by {
            assert(init[i] == pieces[i]);
        }
        lemma_named_names(init);
        assert(!has_char(pieces[pieces.len() - 1], '/'));
    }
}

/// The names among the components of a path are names.
pub proof fn lemma_components_named(path: Seq<char>)
    ensures
        well_named(components(path)),
{
    let pieces = split(path, '/');
    lemma_split_pieces(path, '/');
    assert forall|i: int| 0 <= i < pieces.len() implies !has_char(#[trigger] pieces[i], '/') by {
        if has_char(pieces[i], '/') {
            let j = choose|j: int| 0 <= j < pieces[i].len() && pieces[i][j] == '/';
            assert(split(path, '/')[i][j] != '/');
        }
    }
    lemma_named_names(pieces);
    let head = components(path).subrange(0, components(path).len() - named(pieces).len());
    assert forall|i: int| 0 <= i < components(path).len() implies ((
    #[trigger] components(path)[i]) matches ComponentView::Normal(n) ==> is_name(n)) by {
        let skip = components(path).len() - named(pieces).len();
        if i >= skip {
            assert(components(path)[i] == named(pieces)[i - skip]);
        }
    }
}

/// Resolving `.` and `..` leaves a plain path: the root first or not at
/// all, then names, and neither `.` nor `..`.
pub proof fn lemma_resolve_dots_plain(comps: Seq<ComponentView>)
    requires
        well_named(comps),
    ensures
        plain(resolve_dots(comps)),
    decreases comps.len(),
{
    if comps.len() > 0 {
        let init = comps.drop_last();
        assert(well_named(init)) by {
            assert forall|i: int| 0 <= i < init.len() implies ((
            #[trigger] init[i]) matches ComponentView::Normal(n) ==> is_name(n)) by {
                assert(init[i] == comps[i]);
            }
        }
        lemma_resolve_dots_plain(init);
        let stack = resolve_dots(init);
        let out = resolve_dots(comps);
        assert(comps[comps.len() - 1] == comps.last());
        assert forall|i: int| 0 <= i < out.len() implies match #[trigger] out[i] {
            ComponentView::Root => i == 0,
            ComponentView::Normal(n) => is_name(n),
            _ => false,
        } by {
            if i < stack.len() && out[i] == stack[i] {
            }
        }
    }
}

proof fn lemma_join_start(parts: Seq<Seq<char>>, sep: Seq<char>)
    requires
        parts.len() >= 1,
    ensures
        parts[0].is_prefix_of(join(parts, sep)),
        parts.len() >= 2 ==> (parts[0] + sep).is_prefix_of(join(parts, sep)),
    decreases parts.len(),
{
    if parts.len() == 2 {
        assert(parts.drop_last()[0] == parts[0]);
        assert(join(parts.drop_last(), sep) == parts[0]);
    } else if parts.len() > 2 {
        lemma_join_start(parts.drop_last(), sep);
        assert(parts.drop_last()[0] == parts[0]);
    }
}

/// The texts of the components.
pub open spec fn texts_of(comps: Seq<ComponentView>) -> Seq<Seq<char>> {
    comps.map_values(|c: ComponentView| component_text(c))
}

proof fn lemma_named_texts(comps: Seq<ComponentView>)
    requires
        plain(comps),
    ensures
        named(texts_of(comps)) == if comps.len() > 0 && comps[0] is Root {
            comps.drop_first()
        } else {
            comps
        },
    decreases comps.len(),
{
    let texts = texts_of(comps);
    if comps.len() > 0 {
        let init = comps.drop_last();
        assert(plain(init)) by {
            assert forall|i: int| 0 <= i < init.len() implies match #[trigger] init[i] {
                ComponentView::Root => i == 0,
                ComponentView::Normal(n) => is_name(n),
                _ => false,
            } by {
                assert(init[i] == comps[i]);
            }
        }
        lemma_named_texts(init);
        assert(texts.drop_last() == texts_of(init));
        assert(texts.last() == component_text(comps.last()));
        let last = comps[comps.len() - 1];
        if comps.len() == 1 {
            assert(init == Seq::<ComponentView>::empty());
            assert(named(texts_of(init)) == Seq::<ComponentView>::empty());
            if last is Root {
                assert(comps.drop_first() == Seq::<ComponentView>::empty());
            } else {
                assert(Seq::<ComponentView>::empty().push(last) == comps);
            }
        } else {
            assert(init[0] == comps[0]);
            if comps[0] is Root {
                assert(init.drop_first().push(last) == comps.drop_first());
            } else {
                assert(init.push(last) == comps);
            }
        }
    } else {
        assert(texts == Seq::<Seq<char>>::empty());
    }
}

proof fn lemma_small_paths()
    ensures
        split(Seq::<char>::empty(), '/') == seq![Seq::<char>::empty()],
        named(seq![Seq::<char>::empty()]) == Seq::<ComponentView>::empty(),
        split(seq!['/'], '/') == seq![Seq::<char>::empty(), Seq::<char>::empty()],
        named(seq![Seq::<char>::empty(), Seq::<char>::empty()]) == Seq::<ComponentView>::empty(),
{
    let e = Seq::<char>::empty();
    let none = Seq::<Seq<char>>::empty();
    let one = seq![e];
    let two = seq![e, e];
    assert(named(none) == Seq::<ComponentView>::empty());
    assert(one.drop_last() == none && one.last() == e);
    assert(named(one) == named(none));
    assert(two.drop_last() == one && two.last() == e);
    assert(named(two) == named(one));
    let slash = seq!['/'];
    assert(split(e, '/') == one);
    assert(slash.drop_last() == e && slash.last() == '/');
    assert(split(slash, '/') == one.push(e));
    assert(one.push(e) == two);
}

/// A plain path that is written out and read again gives the components
/// that were written.
pub proof fn lemma_render_plain(comps: Seq<ComponentView>)
    requires
        plain(comps),
    ensures
        components(render(comps)) == comps,
{
    let texts = texts_of(comps);
    let path = render(comps);
    if comps.len() == 0 {
        assert(texts == Seq::<Seq<char>>::empty());
        assert(path == Seq::<char>::empty());
        lemma_small_paths();
        assert(components(path) == comps);
    } else if comps.len() == 1 && comps[0] is Root {
        lemma_small_paths();
        assert(path == seq!['/']);
        assert(components(path) == seq![ComponentView::Root] + Seq::<ComponentView>::empty());
        assert(components(path) == comps);
    } else {
        assert forall|i: int| 0 <= i < texts.len() implies !has_char(#[trigger] texts[i], '/') by {
            assert(texts[i] == component_text(comps[i]));
        }
        assert(path == join(texts, seq!['/']));
        lemma_split_join(texts, '/');
        lemma_named_texts(comps);
        lemma_join_start(texts, seq!['/']);
        assert(texts[0] == component_text(comps[0]));
        if comps[0] is Root {
            assert(texts[0].len() == 0);
            assert((texts[0] + seq!['/'])[0] == '/');
            assert(path[0] == '/');
            assert(seq![ComponentView::Root] + comps.drop_first() == comps);
        } else {
            assert(texts[0][0] != '/') by {
                if texts[0][0] == '/' {
                    assert(has_char(texts[0], '/'));
                }
            }
            assert(path[0] == texts[0][0]);
            assert(Seq::<ComponentView>::empty() + comps == comps);
        }
    }
}

/// A path that has been normalised holds neither `.` nor `..`, and reading
/// it gives the components that normalising left.
pub proof fn lemma_normalized_plain(comps: Seq<ComponentView>)
    requires
        well_named(comps),
    ensures
        components(render(resolve_dots(comps))) == resolve_dots(comps),
        plain(resolve_dots(comps)),
{
    lemma_resolve_dots_plain(comps);
    lemma_render_plain(resolve_dots(comps));
}

fn chars_are(v: &Vec<char>, a: char) -> (r: bool)
    ensures
        r == (v@ == seq![a]),
{
    let r = v.len() == 1 && v[0] == a;
    assert(r ==> v@ == seq![a]);
    r
}

fn is_dot_dot(v: &Vec<char>) -> (r: bool)
    ensures
        r == (v@ == dot_dot()),
{
    let r = v.len() == 2 && v[0] == '.' && v[1] == '.';
    assert(r ==> v@ == dot_dot());
    r
}

/// The components of `path`.
pub fn components_of(path: &str) -> (out: Vec<Component>)
    ensures
        out.deep_view() == components(path@),
{
    let text = to_chars(path);
    let pieces = split_chars(&text, '/');
    proof {
        lemma_split_len(path@, '/');
    }
    let mut out: Vec<Component> = Vec::new();
    assert(pieces.deep_view()[0] == pieces[0]@);
    if text.len() > 0 && text[0] == '/' {
        out.push(Component::Root);
    } else if chars_are(&pieces[0], '.') {
        out.push(Component::Cur);
    }
    let ghost head = out.deep_view();
    let ghost all = split(path@, '/');
    let mut i: usize = 0;
    assert(all.take(0) == Seq::<Seq<char>>::empty());
    assert(out.deep_view() == head + named(all.take(0)));
    while i < pieces.len()
        invariant
            i <= pieces.len(),
            pieces.deep_view() == all,
            out.deep_view() == head + named(all.take(i as int)),
        decreases pieces.len() - i,
    {
        let p = &pieces[i];
        assert(all.take(i + 1).drop_last() == all.take(i as int));
        assert(all.take(i + 1).last() == p@);
        let ghost before = out.deep_view();
        if p.len() == 0 || chars_are(p, '.') {
        } else if is_dot_dot(p) {
            out.push(Component::Parent);
            assert(out.deep_view() == before.push(ComponentView::Parent));
        } else {
            let name = from_chars(p);
            out.push(Component::Normal(name));
            assert(out.deep_view() == before.push(ComponentView::Normal(p@)));
        }
        i += 1;
    }
    assert(all.take(all.len() as int) == all);
    out
}

/// Writes components out as a path.
pub fn render_components(comps: &Vec<Component>) -> (out: String)
    ensures
        out@ == render(comps.deep_view()),
{
    if comps.len() == 1 {
        if let Component::Root = &comps[0] {
            assert(comps.deep_view()[0] == comps[0]@);
            return from_chars(&vec!['/']);
        }
    }
    let ghost texts = comps.deep_view().map_values(|c: ComponentView| component_text(c));
    let mut out: Vec<char> = Vec::new();
    let mut i: usize = 0;
    assert(texts.take(0) == Seq::<Seq<char>>::empty());
    while i < comps.len()
        invariant
            i <= comps.len(),
            texts == comps.deep_view().map_values(|c: ComponentView| component_text(c)),
            out@ == join(texts.take(i as int), seq!['/']),
        decreases comps.len() - i,
    {
        let ghost pre = texts.take(i as int);
        let ghost nxt = texts.take(i + 1);
        assert(nxt.drop_last() == pre);
        assert(nxt.last() == component_text(comps[i as int]@));
        if i > 0 {
            out.push('/');
        }
        let ghost mid = out@;
        match &comps[i] {
            Component::Root => {},
            Component::Cur => {
                out.push('.');
            },
            Component::Parent => {
                out.push('.');
                out.push('.');
            },
            Component::Normal(name) => {
                let n = to_chars(name.as_str());
                push_all(&mut out, &n);
            },
        }
        assert(out@ == mid + component_text(comps[i as int]@));
        if i == 0 {
            assert(nxt.len() == 1);
        } else {
            assert(mid == join(pre, seq!['/']) + seq!['/']);
        }
        i += 1;
    }
    assert(texts.take(texts.len() as int) == texts);
    from_chars(&out)
}

/// Resolves `.` and `..` in a sequence of components.
pub fn resolve_components(comps: &Vec<Component>) -> (out: Vec<Component>)
    ensures
        out.deep_view() == resolve_dots(comps.deep_view()),
{
    let mut out: Vec<Component> = Vec::new();
    let mut i: usize = 0;
    let ghost all = comps.deep_view();
    assert(all.take(0) == Seq::<ComponentView>::empty());
    assert(out.deep_view() == Seq::<ComponentView>::empty());
    while i < comps.len()
        invariant
            i <= comps.len(),
            all == comps.deep_view(),
            out.deep_view() == resolve_dots(all.take(i as int)),
        decreases comps.len() - i,
    {
        assert(all.take(i + 1).drop_last() == all.take(i as int));
        assert(all.take(i + 1).last() == comps[i as int]@);
        let ghost before = out.deep_view();
        match &comps[i] {
            Component::Parent => {
                let n = out.len();
                if n > 0 {
                    assert(before[n - 1] == out[n - 1]@);
                    let at_root = match &out[n - 1] {
                        Component::Root => true,
                        _ => false,
                    };
                    if !at_root {
                        out.pop();
                        assert(out.deep_view() == before.drop_last());
                    }
                }
            },
            Component::Cur => {},
            Component::Root => {
                out = Vec::new();
                out.push(Component::Root);
                assert(out.deep_view() == seq![ComponentView::Root]);
            },
            Component::Normal(name) => {
                out.push(Component::Normal(name.clone()));
                assert(out.deep_view() == before.push(ComponentView::Normal(name@)));
            },
        }
        i += 1;
    }
    assert(all.take(all.len() as int) == all);
    out
}

/// Normalises a path by resolving `.` and `..` without looking at any file
/// system.
pub fn normalize_path(path: &str) -> (out: String)
    ensures
        out@ == normalized_path(path@),
{
    let comps = components_of(path);
    let stack = resolve_components(&comps);
    render_components(&stack)
}

/// Whether `path` is `base` or lies below it.
pub fn path_starts_with(path: &str, base: &str) -> (r: bool)
    ensures
        r == under(path@, base@),
{
    let p = components_of(path);
    let b = components_of(base);
    if b.len() > p.len() {
        return false;
    }
    let mut i: usize = 0;
    while i < b.len()
        invariant
            i <= b.len() <= p.len(),
            p.deep_view() == components(path@),
            b.deep_view() == components(base@),
            forall|j: int| 0 <= j < i ==> p.deep_view()[j] == b.deep_view()[j],
        decreases b.len() - i,
    {
        assert(p.deep_view()[i as int] == p[i as int]@);
        assert(b.deep_view()[i as int] == b[i as int]@);
        let same = match (&p[i], &b[i]) {
            (Component::Root, Component::Root) => true,
            (Component::Cur, Component::Cur) => true,
            (Component::Parent, Component::Parent) => true,
            (Component::Normal(x), Component::Normal(y)) => crate::text::str_eq(
                x.as_str(),
                y.as_str(),
            ),
            _ => false,
        };
        if !same {
            assert(components(path@).subrange(0, b.len() as int)[i as int] != components(
                base@,
            )[i as int]);
            return false;
        }
        i += 1;
    }
    assert(components(base@) =~= components(path@).subrange(0, b.len() as int));
    true
}

/// Whether two paths name the same place on the text: their components
/// are the same.
pub open spec fn same_place(a: Seq<char>, b: Seq<char>) -> bool {
    components(a) == components(b)
}

/// Compares two paths component by component.
pub fn same_path(a: &str, b: &str) -> (r: bool)
    ensures
        r == same_place(a@, b@),
{
    let r = path_starts_with(a, b) && path_starts_with(b, a);
    proof {
        let x = components(a@);
        let y = components(b@);
        if r {
            assert(x.len() == y.len());
            assert(x.subrange(0, y.len() as int) == x);
            assert(x == y);
        }
        if x == y {
            assert(x.subrange(0, x.len() as int) == x);
        }
    }
    r
}

/// `path` as seen from `base`, where it lies under `base`: the components
/// of `path` that follow those of `base`.
pub open spec fn relative_to(path: Seq<char>, base: Seq<char>) -> Option<Seq<char>> {
    if under(path, base) {
        Some(render(components(path).skip(components(base).len() as int)))
    } else {
        None
    }
}

/// Takes `base` off the front of `path`, where `path` lies under `base`.
pub fn strip_base(path: &str, base: &str) -> (out: Option<String>)
    ensures
        out.deep_view() == relative_to(path@, base@),
{
    if !path_starts_with(path, base) {
        return None;
    }
    let p = components_of(path);
    let b = components_of(base);
    let mut rest: Vec<Component> = Vec::new();
    let mut i: usize = b.len();
    assert(rest.deep_view() == p.deep_view().subrange(b.len() as int, i as int));
    while i < p.len()
        invariant
            b.len() <= i <= p.len(),
            rest.deep_view() == p.deep_view().subrange(b.len() as int, i as int),
        decreases p.len() - i,
    {
        let ghost before = rest.deep_view();
        let c = p[i].clone();
        rest.push(c);
        assert(rest.deep_view() == before.push(c@));
        assert(p.deep_view().subrange(b.len() as int, i + 1) == p.deep_view().subrange(
            b.len() as int,
            i as int,
        ).push(p.deep_view()[i as int]));
        i += 1;
    }
    assert(p.deep_view().subrange(b.len() as int, p.len() as int) == p.deep_view().skip(
        b.len() as int,
    ));
    Some(render_components(&rest))
}

/// Appends `tail` to `base` as a path.
pub fn join_path(base: &str, tail: &str) -> (out: String)
    ensures
        out@ == joined(base@, tail@),
{
    let t = to_chars(tail);
    if t.len() > 0 && t[0] == '/' {
        return from_chars(&t);
    }
    let mut out = to_chars(base);
    let n = out.len();
    if n > 0 && out[n - 1] != '/' {
        out.push('/');
    }
    push_all(&mut out, &t);
    from_chars(&out)
}

/// The directory above `path`, if there is one.
pub fn parent_of(path: &str) -> (out: Option<String>)
    ensures
        out.deep_view() == parent(path@),
{
    let mut comps = components_of(path);
    let n = comps.len();
    if n == 0 {
        return None;
    }
    assert(comps.deep_view()[n - 1] == comps[n - 1]@);
    if let Component::Root = &comps[n - 1] {
        return None;
    }
    let ghost before = comps.deep_view();
    comps.pop();
    assert(comps.deep_view() == before.drop_last());
    Some(render_components(&comps))
}

} // verus!
