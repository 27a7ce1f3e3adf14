use vstd::prelude::*;

verus! {

/// A JSON scalar as it appears in a request body.
#[derive(Debug, Clone, PartialEq, Eq)]
pub enum Scalar {
    Bool(bool),
    Number(u64),
    Text(String),
}

/// The mathematical value of a [`Scalar`].
pub enum ScalarView {
    Bool(bool),
    Number(u64),
    Text(Seq<char>),
}

impl View for Scalar {
    type V = ScalarView;

    open spec fn view(&self) -> ScalarView {
        match self {
            Scalar::Bool(b) => ScalarView::Bool(*b),
            Scalar::Number(n) => ScalarView::Number(*n),
            Scalar::Text(s) => ScalarView::Text(s@),
        }
    }
}

/// The value of a top-level member of a request body: a scalar, or a flat
/// object whose members are scalars.
#[derive(Debug, Clone, PartialEq, Eq)]
pub enum Member {
    Scalar(Scalar),
    Object(Vec<(String, Scalar)>),
}

/// The mathematical value of a [`Member`].
pub enum MemberView {
    Scalar(ScalarView),
    Object(Seq<(Seq<char>, ScalarView)>),
}

pub open spec fn fields_view(fields: Seq<(String, Scalar)>) -> Seq<(Seq<char>, ScalarView)> {
    fields.map_values(|f: (String, Scalar)| (f.0@, f.1@))
}

impl View for Member {
    type V = MemberView;

    open spec fn view(&self) -> MemberView {
        match self {
            Member::Scalar(s) => MemberView::Scalar(s@),
            Member::Object(fields) => MemberView::Object(fields_view(fields@)),
        }
    }
}

/// A JSON object sent as the body of a request, members in order.
#[derive(Debug, Clone, PartialEq, Eq)]
pub struct Body {
    pub members: Vec<(String, Member)>,
}

impl View for Body {
    type V = Seq<(Seq<char>, MemberView)>;

    open spec fn view(&self) -> Seq<(Seq<char>, MemberView)> {
        self.members@.map_values(|m: (String, Member)| (m.0@, m.1@))
    }
}

/// A text member value.
pub open spec fn text(s: Seq<char>) -> MemberView {
    MemberView::Scalar(ScalarView::Text(s))
}

/// A boolean member value.
pub open spec fn boolean(b: bool) -> MemberView {
    MemberView::Scalar(ScalarView::Bool(b))
}

/// A numeric member value.
pub open spec fn number(n: u64) -> MemberView {
    MemberView::Scalar(ScalarView::Number(n))
}

/// No two members of the object share a name.
pub open spec fn distinct_names<V>(members: Seq<(Seq<char>, V)>) -> bool {
    forall|i: int, j: int|
        0 <= i < j < members.len() ==> #[trigger] members[i].0 != #[trigger] members[j].0
}

impl Body {
    /// An object with no members.
    pub fn empty() -> (r: Body)
        ensures
            r@ == Seq::<(Seq<char>, MemberView)>::empty(),
    {
        let r = Body { members: Vec::new() };
        assert(r@ =~= Seq::<(Seq<char>, MemberView)>::empty());
        r
    }

    /// Appends a member at the end of the object.
    pub fn push(&mut self, name: &str, value: Member)
        ensures
            final(self)@ == old(self)@.push((name@, value@)),
    {
        let ghost before = self@;
        self.members.push((String::from_str(name), value));
        assert(self@ =~= before.push((name@, value@)));
    }
}

} // verus!
