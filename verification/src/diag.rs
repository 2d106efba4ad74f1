//! What the passes report: bailouts, which only explain why an
//! optimisation was skipped, and diagnostics, which reject the module.
use crate::ast::Span;
use vstd::prelude::*;

verus! {

/// Why an optimisation could not be applied.
#[derive(Clone, Copy, Debug, PartialEq, Eq, Structural)]
pub enum BailoutReason {
    NonTopLevelRequire,
    NonStaticDestructuring,
    TopLevelReturn,
    Eval,
    NonStaticExports,
    FreeModule,
    FreeExports,
    ExportsReassignment,
    ModuleReassignment,
    NonStaticDynamicImport,
    NonStaticAccess,
}

#[derive(Clone, Copy, Debug, PartialEq, Eq, Structural)]
pub struct Bailout {
    pub loc: Span,
    pub reason: BailoutReason,
}

#[derive(Clone, Copy, Debug, PartialEq, Eq, Structural)]
pub enum DiagnosticSeverity {
    Error,
    Warning,
    SourceError,
}

#[derive(Debug, PartialEq, Eq)]
pub struct CodeHighlight {
    pub message: Option<String>,
    pub loc: Span,
}

pub struct CodeHighlightV {
    pub message: Option<Seq<char>>,
    pub loc: Span,
}

impl View for CodeHighlight {
    type V = CodeHighlightV;

    open spec fn view(&self) -> CodeHighlightV {
        CodeHighlightV { message: crate::ast::opt_str_view(self.message), loc: self.loc }
    }
}

pub open spec fn highlights_view(s: Seq<CodeHighlight>) -> Seq<CodeHighlightV> {
    Seq::new(s.len(), |i: int| s[i]@)
}

#[derive(Debug, PartialEq, Eq)]
pub struct Diagnostic {
    pub message: String,
    pub code_highlights: Vec<CodeHighlight>,
    pub severity: DiagnosticSeverity,
}

pub struct DiagnosticV {
    pub message: Seq<char>,
    pub code_highlights: Seq<CodeHighlightV>,
    pub severity: DiagnosticSeverity,
}

impl View for Diagnostic {
    type V = DiagnosticV;

    open spec fn view(&self) -> DiagnosticV {
        DiagnosticV {
            message: self.message@,
            code_highlights: highlights_view(self.code_highlights@),
            severity: self.severity,
        }
    }
}

pub open spec fn diagnostics_view(s: Seq<Diagnostic>) -> Seq<DiagnosticV> {
    Seq::new(s.len(), |i: int| s[i]@)
}

/// `s`, which is in order, with `b` put behind every entry that does not
/// start after it.
pub open spec fn insert_by_start(s: Seq<Bailout>, b: Bailout) -> Seq<Bailout>
    decreases s.len(),
{
    if s.len() == 0 {
        seq![b]
    } else if s.last().loc.lo <= b.loc.lo {
        s.push(b)
    } else {
        insert_by_start(s.drop_last(), b).push(s.last())
    }
}

/// `s` in order of where each entry starts; entries that start at the same
/// place keep their order.
pub open spec fn sorted_by_start(s: Seq<Bailout>) -> Seq<Bailout>
    decreases s.len(),
{
    if s.len() == 0 {
        s
    } else {
        insert_by_start(sorted_by_start(s.drop_last()), s.last())
    }
}

pub open spec fn in_start_order(s: Seq<Bailout>) -> bool {
    forall|i: int, j: int| 0 <= i < j < s.len() ==> s[i].loc.lo <= s[j].loc.lo
}

proof fn lemma_insert_at(s: Seq<Bailout>, b: Bailout, j: int)
    requires
        0 <= j <= s.len(),
        forall|k: int| j <= k < s.len() ==> s[k].loc.lo > b.loc.lo,
        j > 0 ==> s[j - 1].loc.lo <= b.loc.lo,
    ensures
        insert_by_start(s, b) == s.insert(j, b),
    decreases s.len(),
{
    if s.len() == 0 {
        assert(s.insert(j, b) =~= seq![b]);
    } else if j == s.len() {
        assert(s.insert(j, b) =~= s.push(b));
    } else {
        lemma_insert_at(s.drop_last(), b, j);
        assert(s.insert(j, b) =~= s.drop_last().insert(j, b).push(s.last()));
    }
}

/// Inserting keeps the order and adds exactly the new entry.
pub proof fn lemma_insert_by_start(s: Seq<Bailout>, b: Bailout)
    requires
        in_start_order(s),
    ensures
        in_start_order(insert_by_start(s, b)),
        insert_by_start(s, b).to_multiset() == s.to_multiset().insert(b),
        insert_by_start(s, b).len() == s.len() + 1,
    decreases s.len(),
{
    broadcast use vstd::seq_lib::group_to_multiset_ensures;

    if s.len() == 0 {
        assert(s =~= Seq::<Bailout>::empty());
        assert(seq![b] =~= Seq::<Bailout>::empty().push(b));
    } else if s.last().loc.lo <= b.loc.lo {
    } else {
        let t = s.drop_last();
        lemma_insert_by_start(t, b);
        let u = insert_by_start(t, b);
        assert(s =~= t.push(s.last()));
        assert(t.push(s.last()).to_multiset() == t.to_multiset().insert(s.last()));
        assert(u.push(s.last()).to_multiset() =~= s.to_multiset().insert(b));
        assert forall|i: int, j: int| 0 <= i < j < u.push(s.last()).len() implies u.push(
            s.last(),
        )[i].loc.lo <= u.push(s.last())[j].loc.lo by {
            if j == u.len() {
                // every entry of u is b or an entry of t
                assert(u.to_multiset().count(u[i]) > 0);
                if u[i] != b {
                    assert(t.to_multiset().count(u[i]) > 0);
                    let k = choose|k: int| 0 <= k < t.len() && t[k] == u[i];
                    assert(s[k] == u[i]);
                }
            }
        }
    }
}

/// The bailouts come out in order, and they are the ones that went in.
pub proof fn lemma_sorted_by_start(s: Seq<Bailout>)
    ensures
        in_start_order(sorted_by_start(s)),
        sorted_by_start(s).to_multiset() == s.to_multiset(),
        sorted_by_start(s).len() == s.len(),
    decreases s.len(),
{
    broadcast use vstd::seq_lib::group_to_multiset_ensures;

    if s.len() == 0 {
    } else {
        lemma_sorted_by_start(s.drop_last());
        lemma_insert_by_start(sorted_by_start(s.drop_last()), s.last());
        assert(s =~= s.drop_last().push(s.last()));
    }
}

/// Puts the bailouts in order of where they start, keeping the order of
/// those that start at the same place.
pub fn sort_bailouts(v: &Vec<Bailout>) -> (r: Vec<Bailout>)
    ensures
        r@ == sorted_by_start(v@),
        in_start_order(r@),
        r@.to_multiset() == v@.to_multiset(),
{
    let mut out: Vec<Bailout> = Vec::new();
    let mut i: usize = 0;
    assert(v@.take(0) =~= Seq::<Bailout>::empty());
    while i < v.len()
        invariant
            i <= v.len(),
            out@ == sorted_by_start(v@.take(i as int)),
            out@.len() == i,
        decreases v.len() - i,
    {
        let b = v[i];
        let mut j: usize = out.len();
        while j > 0 && out[j - 1].loc.lo > b.loc.lo
            invariant
                j <= out.len(),
                forall|k: int| j <= k < out@.len() ==> out@[k].loc.lo > b.loc.lo,
            decreases j,
        {
            j -= 1;
        }
        proof {
            lemma_insert_at(out@, b, j as int);
            assert(v@.take(i + 1).drop_last() =~= v@.take(i as int));
            lemma_sorted_by_start(v@.take(i + 1));
        }
        out.insert(j, b);
        i += 1;
    }
    proof {
        assert(v@.take(v@.len() as int) =~= v@);
        lemma_sorted_by_start(v@);
    }
    out
}

} // verus!
