//! Composition of record declarations from a shared base field set.
//!
//! A [`BaseSet`] names an ordered, non-empty list of fields. A [`Request`]
//! asks for a declaration built on it in one of four shapes:
//!
//! 1. nothing at all: the base itself, without attributes;
//! 2. attributes only: the base itself, carrying them;
//! 3. a new name and additional fields, with or without attributes;
//! 4. a new name only, with or without attributes: the base fields alone.
//!
//! The generated [`Declaration`] holds the base fields in their order,
//! followed by the additional ones in theirs, and exactly the attributes
//! asked for. Any other shape is rejected, and so is a field name that
//! would occur twice in the result.
use vstd::prelude::*;

verus! {

/// The visibility written before a field.
#[derive(Debug, Clone, Copy, PartialEq, Eq, Structural)]
pub enum Visibility {
    /// No qualifier.
    Private,
    /// `pub(crate)`.
    Crate,
    /// `pub`.
    Public,
}

/// One field: its visibility, its name and its type, as written.
#[derive(Debug, PartialEq, Eq)]
pub struct FieldDecl {
    pub vis: Visibility,
    pub name: String,
    pub ty: String,
}

impl Clone for FieldDecl {
    fn clone(&self) -> (r: Self)
        ensures
            r == *self,
    {
        FieldDecl { vis: self.vis, name: self.name.clone(), ty: self.ty.clone() }
    }
}

impl FieldDecl {
    pub fn new(vis: Visibility, name: &str, ty: &str) -> (r: FieldDecl)
        ensures
            r.vis == vis,
            r.name@ == name@,
            r.ty@ == ty@,
    {
        FieldDecl { vis, name: name.to_string(), ty: ty.to_string() }
    }
}

/// Why a base set or a request was refused.
#[derive(Debug, Clone, Copy, PartialEq, Eq, Structural)]
pub enum ComposeError {
    /// A base set must have at least one field.
    EmptyBase,
    /// The request matches none of the four shapes.
    MalformedRequest,
    /// Some field name would occur twice.
    DuplicateField,
}

/// No two fields of `s` share a name.
pub open spec fn distinct_names(s: Seq<FieldDecl>) -> bool {
    forall|i: int, j: int| 0 <= i < j < s.len() ==> s[i].name@ != s[j].name@
}

/// Whether no two fields of `fields` share a name.
pub fn names_are_distinct(fields: &Vec<FieldDecl>) -> (r: bool)
    ensures
        r == distinct_names(fields@),
{
    let n = fields.len();
    let mut j: usize = 1;
    while j < n
        invariant
            n == fields@.len(),
            1 <= j <= n || n == 0,
            forall|a: int, b: int|
                0 <= a < b < j && b < n ==> fields@[a].name@ != fields@[b].name@,
        decreases n - j,
    {
        let mut i: usize = 0;
        while i < j
            invariant
                n == fields@.len(),
                i <= j < n,
                forall|a: int| 0 <= a < i ==> fields@[a].name@ != fields@[j as int].name@,
            decreases j - i,
        {
            if fields[i].name == fields[j].name {
                return false;
            }
            i = i + 1;
        }
        j = j + 1;
    }
    true
}

/// A named, non-empty field set with no name twice, shared by the
/// declarations composed from it.
pub struct BaseSet {
    name: String,
    fields: Vec<FieldDecl>,
}

impl BaseSet {
    /// The name of the base set.
    pub closed spec fn spec_name(&self) -> Seq<char> {
        self.name@
    }

    /// The base fields, in the order they were declared.
    pub closed spec fn spec_fields(&self) -> Seq<FieldDecl> {
        self.fields@
    }

    #[verifier::type_invariant]
    spec fn inv(&self) -> bool {
        &&& self.fields@.len() > 0
        &&& distinct_names(self.fields@)
    }

    /// Declares a base set; it fails on an empty field list and on a name
    /// that occurs twice.
    pub fn define(name: String, fields: Vec<FieldDecl>) -> (r: Result<BaseSet, ComposeError>)
        ensures
            fields@.len() == 0 ==> r == Err::<BaseSet, _>(ComposeError::EmptyBase),
            fields@.len() > 0 && !distinct_names(fields@) ==> r == Err::<BaseSet, _>(
                ComposeError::DuplicateField,
            ),
            r is Ok <==> fields@.len() > 0 && distinct_names(fields@),
            r matches Ok(b) ==> b.spec_name() == name@ && b.spec_fields() == fields@,
    {
        if fields.len() == 0 {
            return Err(ComposeError::EmptyBase);
        }
        if !names_are_distinct(&fields) {
            return Err(ComposeError::DuplicateField);
        }
        Ok(BaseSet { name, fields })
    }

    pub fn name(&self) -> (r: &String)
        ensures
            r@ == self.spec_name(),
    {
        &self.name
    }

    /// The base fields; there is at least one, and no name occurs twice.
    pub fn fields(&self) -> (r: &Vec<FieldDecl>)
        ensures
            r@ == self.spec_fields(),
            r@.len() > 0,
            distinct_names(r@),
    {
        proof {
            use_type_invariant(self);
        }
        &self.fields
    }
}

/// What a declaration is asked for: attributes to attach, a new name, and
/// fields to add after the base ones. Each may be absent.
pub struct Request {
    pub attrs: Option<Vec<String>>,
    pub name: Option<String>,
    pub fields: Option<Vec<FieldDecl>>,
}

impl Request {
    /// The request has one of the four recognised shapes: additional fields
    /// come only with a new name, and a list that is given is not empty.
    pub open spec fn well_shaped(&self) -> bool {
        &&& !(self.fields is Some && self.name is None)
        &&& (self.attrs matches Some(a) ==> a@.len() > 0)
        &&& (self.fields matches Some(f) ==> f@.len() > 0)
    }

    /// The fields to add after the base ones.
    pub open spec fn extra_fields(&self) -> Seq<FieldDecl> {
        match self.fields {
            Some(f) => f@,
            None => Seq::empty(),
        }
    }

    /// The attributes the declaration is to carry.
    pub open spec fn requested_attrs(&self) -> Seq<String> {
        match self.attrs {
            Some(a) => a@,
            None => Seq::empty(),
        }
    }

    /// The name of the declaration: the new one if given, else the base's.
    pub open spec fn target_name(&self, base: &BaseSet) -> Seq<char> {
        match self.name {
            Some(n) => n@,
            None => base.spec_name(),
        }
    }
}

/// A generated record declaration.
#[derive(Debug, PartialEq, Eq)]
pub struct Declaration {
    pub name: String,
    pub attrs: Vec<String>,
    pub fields: Vec<FieldDecl>,
}

/// The fields of the declaration composed from `base` for `req`.
pub open spec fn composed_fields(base: &BaseSet, req: &Request) -> Seq<FieldDecl> {
    base.spec_fields() + req.extra_fields()
}

/// Composes the declaration that `req` asks for on top of `base`.
///
/// A request of none of the four shapes is refused as malformed; one whose
/// additional fields repeat a name is refused as a duplicate. Otherwise the
/// declaration has the base fields followed by the additional ones, and
/// exactly the attributes requested.
pub fn generate(base: &BaseSet, req: &Request) -> (r: Result<Declaration, ComposeError>)
    ensures
        !req.well_shaped() ==> r == Err::<Declaration, _>(ComposeError::MalformedRequest),
        req.well_shaped() && !distinct_names(composed_fields(base, req)) ==> r == Err::<
            Declaration,
            _,
        >(ComposeError::DuplicateField),
        r is Ok <==> req.well_shaped() && distinct_names(composed_fields(base, req)),
        r matches Ok(d) ==> {
            &&& d.name@ == req.target_name(base)
            &&& d.fields@ == composed_fields(base, req)
            &&& d.attrs@ == req.requested_attrs()
        },
        req.fields is None ==> (r matches Ok(d) ==> d.fields@ == base.spec_fields()),
        req.attrs is None ==> (r matches Ok(d) ==> d.attrs@.len() == 0),
{
    let shaped = match (&req.name, &req.fields) {
        (None, Some(_)) => false,
        _ => true,
    };
    let attrs_ok = match &req.attrs {
        Some(a) => a.len() > 0,
        None => true,
    };
    let fields_ok = match &req.fields {
        Some(f) => f.len() > 0,
        None => true,
    };
    if !(shaped && attrs_ok && fields_ok) {
        return Err(ComposeError::MalformedRequest);
    }
    let mut fields = base.fields().clone();
    assert(fields@ == base.spec_fields()) by {
        assert(fields@ =~= base.spec_fields());
    }
    match &req.fields {
        Some(extra) => {
            let mut i: usize = 0;
            while i < extra.len()
                invariant
                    fields@ == base.spec_fields() + extra@.take(i as int),
                    i <= extra@.len(),
                decreases extra@.len() - i,
            {
                fields.push(extra[i].clone());
                assert(base.spec_fields() + extra@.take(i + 1) =~= base.spec_fields() + extra@.take(
                    i as int,
                ).push(extra@[i as int]));
                i = i + 1;
            }
            assert(extra@.take(extra@.len() as int) =~= extra@);
        },
        None => {
            assert(base.spec_fields() + Seq::<FieldDecl>::empty() =~= base.spec_fields());
        },
    }
    if !names_are_distinct(&fields) {
        return Err(ComposeError::DuplicateField);
    }
    let name = match &req.name {
        Some(n) => n.clone(),
        None => base.name().clone(),
    };
    let attrs = match &req.attrs {
        Some(a) => a.clone(),
        None => Vec::new(),
    };
    assert(attrs@ =~= req.requested_attrs());
    Ok(Declaration { name, attrs, fields })
}

/// The composed fields are the base fields in their declared order, then
/// the additional fields in the order given: nothing is dropped, added or
/// moved.
pub proof fn lemma_field_order(base: &BaseSet, req: &Request)
    ensures
        composed_fields(base, req).len() == base.spec_fields().len() + req.extra_fields().len(),
        forall|i: int|
            0 <= i < base.spec_fields().len() ==> #[trigger] composed_fields(base, req)[i]
                == base.spec_fields()[i],
        forall|i: int|
            0 <= i < req.extra_fields().len() ==> #[trigger] composed_fields(
                base,
                req,
            )[base.spec_fields().len() + i] == req.extra_fields()[i],
        composed_fields(base, req).take(base.spec_fields().len() as int) == base.spec_fields(),
        composed_fields(base, req).skip(base.spec_fields().len() as int) == req.extra_fields(),
{
    let b = base.spec_fields();
    let c = composed_fields(base, req);
    assert(c.take(b.len() as int) =~= b);
    assert(c.skip(b.len() as int) =~= req.extra_fields());
}

/// A request with no additional fields yields exactly the base fields, with
/// their names, types and visibilities.
pub proof fn lemma_bare_is_base(base: &BaseSet, req: &Request)
    requires
        req.fields is None,
    ensures
        composed_fields(base, req) == base.spec_fields(),
{
    assert(composed_fields(base, req) =~= base.spec_fields());
}

/// The attributes of a declaration are exactly the list given, and none
/// when no list is given.
pub proof fn lemma_attrs_forwarded(req: &Request)
    ensures
        req.attrs matches Some(a) ==> req.requested_attrs() == a@,
        req.attrs is None ==> req.requested_attrs() == Seq::<String>::empty(),
{
}

} // verus!
