use vstd::prelude::*;

verus! {

/// One field of a record declaration, as the declaration states it.
pub struct FieldDecl {
    /// The field's name.
    pub name: String,
    /// Whether the field is declared with public visibility.
    pub public: bool,
    /// Whether the field carries the modifier that excludes it from access.
    pub skip: bool,
}

/// Whether a declared field is accessible: it is not excluded, and it is
/// public where the record asks for public fields only.
pub open spec fn is_accessible(d: FieldDecl, public_only: bool) -> bool {
    !d.skip && (d.public || !public_only)
}

/// The names of the accessible fields of a declaration, in declaration order.
pub open spec fn accessible_names(decls: Seq<FieldDecl>, public_only: bool) -> Seq<Seq<char>> {
    decls.filter(|d: FieldDecl| is_accessible(d, public_only)).map_values(|d: FieldDecl| d.name@)
}

proof fn lemma_accessible_names_push(decls: Seq<FieldDecl>, d: FieldDecl, public_only: bool)
    ensures
        accessible_names(decls.push(d), public_only) == if is_accessible(d, public_only) {
            accessible_names(decls, public_only).push(d.name@)
        } else {
            accessible_names(decls, public_only)
        },
{
    let pred = |x: FieldDecl| is_accessible(x, public_only);
    reveal(Seq::filter);
    assert(decls.push(d).drop_last() =~= decls);
    assert(decls.push(d).filter(pred) == if is_accessible(d, public_only) {
        decls.filter(pred).push(d)
    } else {
        decls.filter(pred)
    });
    if is_accessible(d, public_only) {
        assert(accessible_names(decls.push(d), public_only) =~= accessible_names(
            decls,
            public_only,
        ).push(d.name@));
    }
}

/// Whether the field-level modifiers and the record-level public-only
/// modifier leave `decl` out.
pub fn skip_field(decl: &FieldDecl, public_only: bool) -> (r: bool)
    ensures
        r == !is_accessible(*decl, public_only),
{
    decl.skip || (public_only && !decl.public)
}

/// The names of the accessible fields of a declaration, in declaration order.
pub fn accessible_fields(decls: &Vec<FieldDecl>, public_only: bool) -> (r: Vec<String>)
    ensures
        r@.map_values(|s: String| s@) == accessible_names(decls@, public_only),
{
    let mut r: Vec<String> = Vec::new();
    let mut i: usize = 0;
    while i < decls.len()
        invariant
            i <= decls@.len(),
            r@.map_values(|s: String| s@) == accessible_names(decls@.subrange(0, i as int), public_only),
        decreases decls@.len() - i,
    {
        let d = &decls[i];
        proof {
            assert(decls@.subrange(0, i as int + 1) =~= decls@.subrange(0, i as int).push(*d));
            lemma_accessible_names_push(decls@.subrange(0, i as int), *d, public_only);
        }
        if !skip_field(d, public_only) {
            let ghost names = r@.map_values(|s: String| s@);
            r.push(d.name.clone());
            assert(r@.map_values(|s: String| s@) =~= names.push(d.name@));
        }
        i = i + 1;
    }
    assert(decls@.subrange(0, decls@.len() as int) =~= decls@);
    r
}

} // verus!
