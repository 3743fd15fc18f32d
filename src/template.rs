//! String templates: sequences of literal text and project fields in a case
//! style, inferred from one example text and rendered for any project.

use crate::case::{case_text, Case};
use crate::project::Project;
use crate::text::{join, lemma_join_pieces, pieces, split_literal, strings_view};
use vstd::prelude::*;

verus! {

/// One fragment of a template.
#[derive(Debug, Clone)]
pub enum Part {
    /// The project's title in a case style.
    Name(Case),
    /// The project's author in a case style.
    Author(Case),
    /// Text taken as it is.
    Literal(String),
}

/// What a fragment is, with its literal text as characters.
pub ghost enum PartView {
    Name(Case),
    Author(Case),
    Literal(Seq<char>),
}

impl View for Part {
    type V = PartView;

    open spec fn view(&self) -> PartView {
        match self {
            Part::Name(c) => PartView::Name(*c),
            Part::Author(c) => PartView::Author(*c),
            Part::Literal(s) => PartView::Literal(s@),
        }
    }
}

/// The fragments of a sequence of parts.
pub open spec fn parts_view(v: Seq<Part>) -> Seq<PartView> {
    v.map_values(|x: Part| x@)
}

/// The text of a fragment in `p`.
pub open spec fn part_text(f: PartView, p: Project) -> Seq<char> {
    match f {
        PartView::Name(c) => case_text(c, p.title@),
        PartView::Author(c) => case_text(c, p.author@),
        PartView::Literal(s) => s,
    }
}

/// The texts of the fragments in `p`, one after the other.
pub open spec fn template_text(fs: Seq<PartView>, p: Project) -> Seq<char>
    decreases fs.len(),
{
    if fs.len() == 0 {
        Seq::empty()
    } else {
        template_text(fs.drop_last(), p) + part_text(fs.last(), p)
    }
}

/// The pieces as literal fragments with `sym` between each two neighbours.
pub open spec fn interleave(ps: Seq<Seq<char>>, sym: PartView) -> Seq<PartView>
    decreases ps.len(),
{
    if ps.len() == 0 {
        Seq::empty()
    } else if ps.len() == 1 {
        seq![PartView::Literal(ps[0])]
    } else {
        interleave(ps.drop_last(), sym) + seq![sym, PartView::Literal(ps.last())]
    }
}

/// A literal fragment split on each occurrence of `r`, with `sym` standing
/// where `r` stood; any other fragment is kept.
pub open spec fn split_fragment(f: PartView, r: Seq<char>, sym: PartView) -> Seq<PartView> {
    match f {
        PartView::Literal(s) => interleave(pieces(s, r), sym),
        _ => seq![f],
    }
}

/// Every fragment split as `split_fragment` does it, in order.
pub open spec fn split_all(fs: Seq<PartView>, r: Seq<char>, sym: PartView) -> Seq<PartView>
    decreases fs.len(),
{
    if fs.len() == 0 {
        Seq::empty()
    } else {
        split_all(fs.drop_last(), r, sym) + split_fragment(fs.last(), r, sym)
    }
}

/// The case styles in the order in which inference tries them.
pub open spec fn case_order() -> Seq<Case> {
    seq![Case::Verbatim, Case::SnakeCase, Case::UpperCamelCase, Case::LowerCamelCase, Case::KebabCase]
}

/// The number of inference passes: each case style for the title, then each
/// for the author.
pub const PASS_COUNT: usize = 10;

/// The fragment that inference pass `k` puts in place of what it finds.
pub open spec fn pass_symbol(k: int) -> PartView {
    if k < 5 {
        PartView::Name(case_order()[k])
    } else {
        PartView::Author(case_order()[k - 5])
    }
}

/// The fragments after the first `k` inference passes over `fs` in `p`.
pub open spec fn passes(fs: Seq<PartView>, p: Project, k: nat) -> Seq<PartView>
    decreases k,
{
    if k == 0 {
        fs
    } else {
        let sym = pass_symbol(k - 1);
        split_all(passes(fs, p, (k - 1) as nat), part_text(sym, p), sym)
    }
}

/// The template inferred from `example` in `p`.
pub open spec fn inferred(example: Seq<char>, p: Project) -> Seq<PartView> {
    passes(seq![PartView::Literal(example)], p, PASS_COUNT as nat)
}

/// The text of two fragment sequences one after the other is the text of each.
pub proof fn lemma_template_text_concat(a: Seq<PartView>, b: Seq<PartView>, p: Project)
    ensures
        template_text(a + b, p) == template_text(a, p) + template_text(b, p),
    decreases b.len(),
{
    if b.len() == 0 {
        assert(a + b =~= a);
    } else {
        lemma_template_text_concat(a, b.drop_last(), p);
        assert((a + b).drop_last() =~= a + b.drop_last());
        assert((a + b).last() == b.last());
        assert(template_text(a + b, p) =~= template_text(a, p) + template_text(b, p));
    }
}

/// A single fragment reads as its own text.
pub proof fn lemma_template_text_single(f: PartView, p: Project)
    ensures
        template_text(seq![f], p) == part_text(f, p),
{
    let one = seq![f];
    assert(one.drop_last() =~= Seq::<PartView>::empty());
    assert(template_text(one.drop_last(), p) == Seq::<char>::empty());
    assert(template_text(one, p) =~= part_text(f, p));
}

/// Interleaved pieces read as the pieces joined by the symbol's text.
pub proof fn lemma_interleave_text(ps: Seq<Seq<char>>, sym: PartView, p: Project)
    ensures
        template_text(interleave(ps, sym), p) == join(ps, part_text(sym, p)),
    decreases ps.len(),
{
    if ps.len() == 0 {
    } else if ps.len() == 1 {
        lemma_template_text_single(PartView::Literal(ps[0]), p);
    } else {
        lemma_interleave_text(ps.drop_last(), sym, p);
        let tail = seq![sym, PartView::Literal(ps.last())];
        lemma_template_text_concat(interleave(ps.drop_last(), sym), tail, p);
        assert(tail =~= seq![sym] + seq![PartView::Literal(ps.last())]);
        lemma_template_text_concat(seq![sym], seq![PartView::Literal(ps.last())], p);
        lemma_template_text_single(sym, p);
        lemma_template_text_single(PartView::Literal(ps.last()), p);
        assert(template_text(tail, p) =~= part_text(sym, p) + ps.last());
        assert(template_text(interleave(ps, sym), p) =~= join(ps, part_text(sym, p)));
    }
}

/// Splitting the literal fragments on the symbol's own text leaves the
/// template's text unchanged.
pub proof fn lemma_split_all_text(fs: Seq<PartView>, sym: PartView, p: Project)
    ensures
        template_text(split_all(fs, part_text(sym, p), sym), p) == template_text(fs, p),
    decreases fs.len(),
{
    if fs.len() > 0 {
        let r = part_text(sym, p);
        lemma_split_all_text(fs.drop_last(), sym, p);
        lemma_template_text_concat(
            split_all(fs.drop_last(), r, sym),
            split_fragment(fs.last(), r, sym),
            p,
        );
        match fs.last() {
            PartView::Literal(s) => {
                lemma_interleave_text(pieces(s, r), sym, p);
                lemma_join_pieces(s, r);
            },
            _ => {
                lemma_template_text_single(fs.last(), p);
            },
        }
        assert(split_all(fs, r, sym) == split_all(fs.drop_last(), r, sym) + split_fragment(
            fs.last(),
            r,
            sym,
        ));
        assert(template_text(fs, p) == template_text(fs.drop_last(), p) + part_text(
            fs.last(),
            p,
        ));
    }
}

/// No inference pass changes the template's text.
pub proof fn lemma_passes_text(fs: Seq<PartView>, p: Project, k: nat)
    ensures
        template_text(passes(fs, p, k), p) == template_text(fs, p),
    decreases k,
{
    if k > 0 {
        lemma_passes_text(fs, p, (k - 1) as nat);
        lemma_split_all_text(passes(fs, p, (k - 1) as nat), pass_symbol(k - 1), p);
    }
}

/// A template inferred from an example in a project, rendered in that same
/// project, gives the example back.
pub proof fn lemma_inferred_round_trip(example: Seq<char>, p: Project)
    ensures
        template_text(inferred(example, p), p) == example,
{
    let start = seq![PartView::Literal(example)];
    lemma_passes_text(start, p, PASS_COUNT as nat);
    lemma_template_text_single(PartView::Literal(example), p);
}

impl Part {
    /// The text of this fragment in `project`.
    pub fn format(&self, project: &Project) -> (r: String)
        ensures
            r@ == part_text(self@, *project),
    {
        match self {
            Self::Name(c) => c.format(project.title.as_str()),
            Self::Author(c) => c.format(project.author.as_str()),
            Self::Literal(s) => s.clone(),
        }
    }

    /// A part equal to this one.
    fn copied(&self) -> (r: Part)
        ensures
            r@ == self@,
    {
        match self {
            Self::Name(c) => Self::Name(*c),
            Self::Author(c) => Self::Author(*c),
            Self::Literal(s) => Self::Literal(s.clone()),
        }
    }
}

/// The fragment that inference pass `k` puts in place of what it finds.
fn pass_part(k: usize) -> (r: Part)
    requires
        k < PASS_COUNT,
    ensures
        r@ == pass_symbol(k as int),
{
    let cases = [
        Case::Verbatim,
        Case::SnakeCase,
        Case::UpperCamelCase,
        Case::LowerCamelCase,
        Case::KebabCase,
    ];
    assert(cases@ =~= case_order());
    if k < 5 {
        Part::Name(cases[k])
    } else {
        Part::Author(cases[k - 5])
    }
}

/// Each literal of `parts` split on `r`, with a copy of `sym` where `r` stood.
fn split_parts(parts: &Vec<Part>, r: &str, sym: &Part) -> (out: Vec<Part>)
    ensures
        parts_view(out@) == split_all(parts_view(parts@), r@, sym@),
{
    let mut out: Vec<Part> = Vec::new();
    let mut k: usize = 0;
    while k < parts.len()
        invariant
            k <= parts@.len(),
            parts_view(out@) == split_all(parts_view(parts@).take(k as int), r@, sym@),
        decreases parts@.len() - k,
    {
        let ghost before = parts_view(out@);
        let ghost taken = parts_view(parts@).take(k + 1);
        assert(taken.drop_last() =~= parts_view(parts@).take(k as int));
        assert(taken.last() == parts[k as int]@);
        match &parts[k] {
            Part::Literal(s) => {
                let ps = split_literal(s.as_str(), r);
                let ghost pv = strings_view(ps@);
                out.push(Part::Literal(ps[0].clone()));
                assert(parts_view(out@) =~= before + interleave(pv.take(1), sym@));
                let mut j: usize = 1;
                while j < ps.len()
                    invariant
                        1 <= j <= ps@.len(),
                        pv == strings_view(ps@),
                        parts_view(out@) == before + interleave(pv.take(j as int), sym@),
                    decreases ps@.len() - j,
                {
                    let ghost mid = parts_view(out@);
                    out.push(sym.copied());
                    out.push(Part::Literal(ps[j].clone()));
                    assert(pv.take(j + 1).drop_last() =~= pv.take(j as int));
                    assert(parts_view(out@) =~= mid + seq![sym@, PartView::Literal(pv[j as int])]);
                    assert(parts_view(out@) =~= before + interleave(pv.take(j + 1), sym@));
                    j = j + 1;
                }
                assert(pv.take(j as int) =~= pv);
            },
            _ => {
                out.push(parts[k].copied());
                assert(parts_view(out@) =~= before + seq![taken.last()]);
            },
        }
        k = k + 1;
    }
    assert(parts_view(parts@).take(k as int) =~= parts_view(parts@));
    out
}

/// A sequence of fragments that renders to text for a project.
#[derive(Debug, Clone)]
pub struct StringTemplate(pub Vec<Part>);

impl View for StringTemplate {
    type V = Seq<PartView>;

    open spec fn view(&self) -> Seq<PartView> {
        parts_view(self.0@)
    }
}

impl StringTemplate {
    /// The texts of the fragments in `project`, one after the other.
    pub fn format(&self, project: &Project) -> (r: String)
        ensures
            r@ == template_text(self@, *project),
    {
        let mut acc = String::new();
        let mut k: usize = 0;
        while k < self.0.len()
            invariant
                k <= self@.len(),
                acc@ == template_text(self@.take(k as int), *project),
            decreases self@.len() - k,
        {
            let piece = self.0[k].format(project);
            acc.append(piece.as_str());
            assert(self@.take(k + 1).drop_last() =~= self@.take(k as int));
            k = k + 1;
        }
        assert(self@.take(k as int) =~= self@);
        acc
    }

    /// Infers a template from `url`: each occurrence of the project's title,
    /// then of its author, written in each case style in turn, becomes a
    /// fragment that stands for that field in that style.
    pub fn try_detect(url: &str, project: &Project) -> (r: StringTemplate)
        ensures
            r@ == inferred(url@, *project),
            template_text(r@, *project) == url@,
    {
        let mut res: Vec<Part> = vec![Part::Literal(url.to_string())];
        let ghost start = seq![PartView::Literal(url@)];
        assert(parts_view(res@) =~= start);
        let mut k: usize = 0;
        while k < PASS_COUNT
            invariant
                k <= PASS_COUNT,
                parts_view(res@) == passes(start, *project, k as nat),
            decreases PASS_COUNT - k,
        {
            let sym = pass_part(k);
            let rendered = sym.format(project);
            res = split_parts(&res, rendered.as_str(), &sym);
            k = k + 1;
        }
        proof {
            lemma_inferred_round_trip(url@, *project);
        }
        StringTemplate(res)
    }
}

} // verus!
