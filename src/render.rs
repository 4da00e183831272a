//! Source text of a generated declaration.
//!
//! A declaration is written as
//!
//! ```text
//! #[derive(Debug, Clone)]
//! pub struct Name {
//!     pub field: Type,
//! }
//! ```
//!
//! where the attribute line is left out when there are no attributes.
use vstd::prelude::*;
use crate::compose::{Declaration, FieldDecl, Visibility};

verus! {

/// The qualifier written before a field, followed by a space if not empty.
pub open spec fn vis_text(v: Visibility) -> Seq<char> {
    match v {
        Visibility::Private => Seq::empty(),
        Visibility::Crate => "pub(crate) "@,
        Visibility::Public => "pub "@,
    }
}

/// One field line: indented, with its qualifier, name and type.
pub open spec fn field_line(f: FieldDecl) -> Seq<char> {
    "    "@ + vis_text(f.vis) + f.name@ + ": "@ + f.ty@ + ",\n"@
}

/// The field lines, in order.
pub open spec fn fields_text(s: Seq<FieldDecl>) -> Seq<char>
    decreases s.len(),
{
    if s.len() == 0 {
        Seq::empty()
    } else {
        fields_text(s.drop_last()) + field_line(s.last())
    }
}

/// The attributes, separated by a comma and a space.
pub open spec fn attrs_list(s: Seq<String>) -> Seq<char>
    decreases s.len(),
{
    if s.len() == 0 {
        Seq::empty()
    } else if s.len() == 1 {
        s[0]@
    } else {
        attrs_list(s.drop_last()) + ", "@ + s.last()@
    }
}

/// The derive line, or nothing when there are no attributes.
pub open spec fn attrs_line(s: Seq<String>) -> Seq<char> {
    if s.len() == 0 {
        Seq::empty()
    } else {
        "#[derive("@ + attrs_list(s) + ")]\n"@
    }
}

/// The whole declaration as source text.
pub open spec fn declaration_text(d: Declaration) -> Seq<char> {
    attrs_line(d.attrs@) + "pub struct "@ + d.name@ + " {\n"@ + fields_text(d.fields@) + "}\n"@
}

fn vis_str(v: Visibility) -> (r: &'static str)
    ensures
        r@ == vis_text(v),
{
    match v {
        Visibility::Private => {
            proof {
                reveal_strlit("");
            }
            ""
        },
        Visibility::Crate => "pub(crate) ",
        Visibility::Public => "pub ",
    }
}

impl Declaration {
    /// Writes the declaration as source text.
    pub fn to_source(&self) -> (r: String)
        ensures
            r@ == declaration_text(*self),
    {
        let mut out = String::new();
        let n = self.attrs.len();
        if n > 0 {
            out.append("#[derive(");
            let mut i: usize = 0;
            while i < n
                invariant
                    n == self.attrs@.len(),
                    i <= n,
                    out@ == "#[derive("@ + attrs_list(self.attrs@.take(i as int)),
                decreases n - i,
            {
                let ghost before = out@;
                if i > 0 {
                    out.append(", ");
                }
                out.append(self.attrs[i].as_str());
                proof {
                    let t = self.attrs@.take(i + 1);
                    assert(t.drop_last() =~= self.attrs@.take(i as int));
                    if i == 0 {
                        assert(self.attrs@.take(0) =~= Seq::<String>::empty());
                        assert(out@ =~= "#[derive("@ + attrs_list(t));
                    } else {
                        assert(out@ =~= "#[derive("@ + attrs_list(t));
                    }
                }
                i = i + 1;
            }
            out.append(")]\n");
            assert(self.attrs@.take(n as int) =~= self.attrs@);
        }
        assert(out@ =~= attrs_line(self.attrs@));
        out.append("pub struct ");
        out.append(self.name.as_str());
        out.append(" {\n");
        let ghost head = out@;
        let m = self.fields.len();
        let mut j: usize = 0;
        while j < m
            invariant
                m == self.fields@.len(),
                j <= m,
                out@ == head + fields_text(self.fields@.take(j as int)),
            decreases m - j,
        {
            let f = &self.fields[j];
            out.append("    ");
            out.append(vis_str(f.vis));
            out.append(f.name.as_str());
            out.append(": ");
            out.append(f.ty.as_str());
            out.append(",\n");
            proof {
                let t = self.fields@.take(j + 1);
                assert(t.drop_last() =~= self.fields@.take(j as int));
                assert(out@ =~= head + fields_text(t));
            }
            j = j + 1;
        }
        assert(self.fields@.take(m as int) =~= self.fields@);
        out.append("}\n");
        assert(out@ =~= declaration_text(*self));
        out
    }
}

} // verus!
