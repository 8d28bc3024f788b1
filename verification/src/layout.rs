use vstd::prelude::*;

verus! {

/// The layout of a Move value, as the VM uses it to (de)serialize the value.
pub enum MoveTypeLayout {
    Bool,
    U8,
    U64,
    U128,
    Address,
    Vector(Box<MoveTypeLayout>),
    Struct(MoveStructLayout),
    Signer,
    U16,
    U32,
    U256,
}

/// The layout of a Move struct: either the plain list of its field layouts,
/// as the VM uses it, or a list decorated with the fields' names.
pub enum MoveStructLayout {
    Runtime(Vec<MoveTypeLayout>),
    WithFields(Vec<MoveFieldLayout>),
}

/// A field layout together with the field's name.
pub struct MoveFieldLayout {
    pub name: String,
    pub layout: MoveTypeLayout,
}

/// The mathematical value of a [`MoveTypeLayout`].
pub enum LayoutModel {
    Bool,
    U8,
    U64,
    U128,
    Address,
    Vector(Box<LayoutModel>),
    Struct(StructLayoutModel),
    Signer,
    U16,
    U32,
    U256,
}

/// The mathematical value of a [`MoveStructLayout`].
pub enum StructLayoutModel {
    Runtime(Seq<LayoutModel>),
    WithFields(Seq<(Seq<char>, LayoutModel)>),
}

pub open spec fn layout_model(l: MoveTypeLayout) -> LayoutModel
    decreases l,
{
    match l {
        MoveTypeLayout::Bool => LayoutModel::Bool,
        MoveTypeLayout::U8 => LayoutModel::U8,
        MoveTypeLayout::U64 => LayoutModel::U64,
        MoveTypeLayout::U128 => LayoutModel::U128,
        MoveTypeLayout::Address => LayoutModel::Address,
        MoveTypeLayout::Vector(inner) => LayoutModel::Vector(Box::new(layout_model(*inner))),
        MoveTypeLayout::Struct(s) => LayoutModel::Struct(struct_layout_model(s)),
        MoveTypeLayout::Signer => LayoutModel::Signer,
        MoveTypeLayout::U16 => LayoutModel::U16,
        MoveTypeLayout::U32 => LayoutModel::U32,
        MoveTypeLayout::U256 => LayoutModel::U256,
    }
}

pub open spec fn struct_layout_model(s: MoveStructLayout) -> StructLayoutModel
    decreases s,
{
    match s {
        MoveStructLayout::Runtime(fields) => StructLayoutModel::Runtime(layouts_model(fields@)),
        MoveStructLayout::WithFields(fields) => StructLayoutModel::WithFields(
            field_layouts_model(fields@),
        ),
    }
}

pub open spec fn layouts_model(ls: Seq<MoveTypeLayout>) -> Seq<LayoutModel>
    decreases ls,
{
    if ls.len() == 0 {
        Seq::empty()
    } else {
        layouts_model(ls.drop_last()).push(layout_model(ls.last()))
    }
}

pub open spec fn field_layouts_model(fs: Seq<MoveFieldLayout>) -> Seq<(Seq<char>, LayoutModel)>
    decreases fs,
{
    if fs.len() == 0 {
        Seq::empty()
    } else {
        let f = fs.last();
        field_layouts_model(fs.drop_last()).push((f.name@, layout_model(f.layout)))
    }
}

impl View for MoveTypeLayout {
    type V = LayoutModel;

    open spec fn view(&self) -> LayoutModel {
        layout_model(*self)
    }
}

impl View for MoveStructLayout {
    type V = StructLayoutModel;

    open spec fn view(&self) -> StructLayoutModel {
        struct_layout_model(*self)
    }
}

/// The models of a sequence of layouts, element by element.
pub proof fn lemma_layouts_model(ls: Seq<MoveTypeLayout>)
    ensures
        layouts_model(ls).len() == ls.len(),
        forall|i: int| 0 <= i < ls.len() ==> #[trigger] layouts_model(ls)[i] == layout_model(ls[i]),
    decreases ls.len(),
{
    if ls.len() > 0 {
        lemma_layouts_model(ls.drop_last());
    }
}

/// Whether a layout holds plain field lists only, at every depth.
pub open spec fn is_runtime_layout(l: LayoutModel) -> bool
    decreases l,
{
    match l {
        LayoutModel::Vector(inner) => is_runtime_layout(*inner),
        LayoutModel::Struct(s) => match s {
            StructLayoutModel::Runtime(fields) => all_runtime_layouts(fields),
            StructLayoutModel::WithFields(_) => false,
        },
        _ => true,
    }
}

pub open spec fn all_runtime_layouts(ls: Seq<LayoutModel>) -> bool
    decreases ls,
{
    ls.len() > 0 ==> is_runtime_layout(ls[0]) && all_runtime_layouts(ls.drop_first())
}

/// What comparing two layouts gives: `Some(b)` where the comparison answers
/// `b`, `None` where it reaches a struct layout decorated with field names,
/// whose plain field list cannot be had.
///
/// Two layouts match when they are the same primitive, when both are vectors
/// of matching element layouts, or when both are structs with the same number
/// of fields that match pairwise; the fields are compared in order and the
/// comparison stops at the first pair that does not match.
pub open spec fn layout_match_outcome(a: LayoutModel, b: LayoutModel) -> Option<bool>
    decreases a,
{
    match (a, b) {
        (LayoutModel::Bool, LayoutModel::Bool) => Some(true),
        (LayoutModel::U8, LayoutModel::U8) => Some(true),
        (LayoutModel::U16, LayoutModel::U16) => Some(true),
        (LayoutModel::U32, LayoutModel::U32) => Some(true),
        (LayoutModel::U64, LayoutModel::U64) => Some(true),
        (LayoutModel::U128, LayoutModel::U128) => Some(true),
        (LayoutModel::U256, LayoutModel::U256) => Some(true),
        (LayoutModel::Address, LayoutModel::Address) => Some(true),
        (LayoutModel::Signer, LayoutModel::Signer) => Some(true),
        (LayoutModel::Vector(x), LayoutModel::Vector(y)) => layout_match_outcome(*x, *y),
        (LayoutModel::Struct(sa), LayoutModel::Struct(sb)) => match (sa, sb) {
            (StructLayoutModel::Runtime(fa), StructLayoutModel::Runtime(fb)) => {
                if fa.len() != fb.len() {
                    Some(false)
                } else {
                    fields_match_outcome(fa, fb)
                }
            },
            _ => None,
        },
        _ => Some(false),
    }
}

/// The outcome of comparing two field lists of equal length pairwise, from
/// the first field on, stopping at the first pair that does not match.
pub open spec fn fields_match_outcome(fa: Seq<LayoutModel>, fb: Seq<LayoutModel>) -> Option<bool>
    decreases fa,
{
    if fa.len() == 0 || fb.len() == 0 {
        Some(true)
    } else {
        match layout_match_outcome(fa[0], fb[0]) {
            Some(true) => fields_match_outcome(fa.drop_first(), fb.drop_first()),
            other => other,
        }
    }
}

impl MoveStructLayout {
    /// The plain list of the struct's field layouts.
    pub fn fields(&self) -> (fields: &Vec<MoveTypeLayout>)
        requires
            self is Runtime,
        ensures
            *self == MoveStructLayout::Runtime(*fields),
            self@ == StructLayoutModel::Runtime(layouts_model(fields@)),
    {
        match self {
            MoveStructLayout::Runtime(fields) => fields,
            MoveStructLayout::WithFields(_) => {
                proof {
                    assert(false);
                }
                unreached()
            },
        }
    }
}


/// Whether two layouts describe the same shape of value: the same primitive,
/// vectors of matching elements, or structs whose plain field lists match
/// pairwise.
pub fn type_layout_match(first_layout: &MoveTypeLayout, second_layout: &MoveTypeLayout) -> (r: bool)
    requires
        layout_match_outcome(first_layout@, second_layout@) is Some,
    ensures
        layout_match_outcome(first_layout@, second_layout@) == Some(r),
    decreases first_layout,
{
    match (first_layout, second_layout) {
        (MoveTypeLayout::Address, MoveTypeLayout::Address) => true,
        (MoveTypeLayout::Signer, MoveTypeLayout::Signer) => true,
        (MoveTypeLayout::Bool, MoveTypeLayout::Bool) => true,
        (MoveTypeLayout::U8, MoveTypeLayout::U8) => true,
        (MoveTypeLayout::U16, MoveTypeLayout::U16) => true,
        (MoveTypeLayout::U32, MoveTypeLayout::U32) => true,
        (MoveTypeLayout::U64, MoveTypeLayout::U64) => true,
        (MoveTypeLayout::U128, MoveTypeLayout::U128) => true,
        (MoveTypeLayout::U256, MoveTypeLayout::U256) => true,
        (MoveTypeLayout::Vector(first_inner), MoveTypeLayout::Vector(second_inner)) => {
            type_layout_match(first_inner, second_inner)
        },
        (MoveTypeLayout::Struct(first_struct), MoveTypeLayout::Struct(second_struct)) => {
            proof {
                assert(first_layout@ == LayoutModel::Struct(struct_layout_model(*first_struct)));
                assert(second_layout@ == LayoutModel::Struct(struct_layout_model(*second_struct)));
                if let MoveStructLayout::WithFields(_) = first_struct {
                    assert(false);
                }
                if let MoveStructLayout::WithFields(_) = second_struct {
                    assert(false);
                }
            }
            let first_fields = first_struct.fields();
            let second_fields = second_struct.fields();
            proof {
                lemma_layouts_model(first_fields@);
                lemma_layouts_model(second_fields@);
            }
            if first_fields.len() != second_fields.len() {
                false
            } else {
                fields_layout_match(first_fields, second_fields)
            }
        },
        (_, _) => false,
    }
}

/// Compares two field lists of equal length pairwise, from the first field
/// on, and stops at the first pair that does not match.
fn fields_layout_match(first_fields: &Vec<MoveTypeLayout>, second_fields: &Vec<MoveTypeLayout>) -> (r: bool)
    requires
        first_fields.len() == second_fields.len(),
        fields_match_outcome(layouts_model(first_fields@), layouts_model(second_fields@)) is Some,
    ensures
        fields_match_outcome(layouts_model(first_fields@), layouts_model(second_fields@)) == Some(r),
    decreases first_fields,
{
    let ghost fa = layouts_model(first_fields@);
    let ghost fb = layouts_model(second_fields@);
    proof {
        lemma_layouts_model(first_fields@);
        lemma_layouts_model(second_fields@);
        assert(fa.skip(0) =~= fa);
        assert(fb.skip(0) =~= fb);
    }
    let mut i: usize = 0;
    while i < first_fields.len()
        invariant
            first_fields.len() == second_fields.len(),
            i <= first_fields.len(),
            fa == layouts_model(first_fields@),
            fb == layouts_model(second_fields@),
            fa.len() == first_fields.len(),
            fb.len() == second_fields.len(),
            forall|k: int| 0 <= k < fa.len() ==> #[trigger] fa[k] == layout_model(first_fields@[k]),
            forall|k: int| 0 <= k < fb.len() ==> #[trigger] fb[k] == layout_model(second_fields@[k]),
            fields_match_outcome(fa, fb) == fields_match_outcome(fa.skip(i as int), fb.skip(i as int)),
            fields_match_outcome(fa, fb) is Some,
        decreases first_fields.len() - i,
    {
        let ghost ra = fa.skip(i as int);
        let ghost rb = fb.skip(i as int);
        assert(ra[0] == fa[i as int]);
        assert(rb[0] == fb[i as int]);
        assert(ra.drop_first() =~= fa.skip(i + 1));
        assert(rb.drop_first() =~= fb.skip(i + 1));
        if !type_layout_match(&first_fields[i], &second_fields[i]) {
            return false;
        }
        i += 1;
    }
    assert(fa.skip(i as int).len() == 0);
    true
}

/// On layouts with plain field lists only, matching is equality: two such
/// layouts match exactly when they are the same layout.
pub proof fn law_runtime_layout_match_is_equality(a: LayoutModel, b: LayoutModel)
    requires
        is_runtime_layout(a),
        is_runtime_layout(b),
    ensures
        layout_match_outcome(a, b) == Some(a == b),
    decreases a,
{
    match (a, b) {
        (LayoutModel::Vector(x), LayoutModel::Vector(y)) => {
            law_runtime_layout_match_is_equality(*x, *y);
        },
        (LayoutModel::Struct(sa), LayoutModel::Struct(sb)) => {
            match (sa, sb) {
                (StructLayoutModel::Runtime(fa), StructLayoutModel::Runtime(fb)) => {
                    if fa.len() == fb.len() {
                        lemma_runtime_fields_match_is_equality(fa, fb);
                        if fa == fb {
                            assert(sa == sb);
                        } else {
                            assert(a != b);
                        }
                    } else {
                        assert(a != b);
                    }
                },
                _ => {},
            }
        },
        _ => {},
    }
}

proof fn lemma_runtime_fields_match_is_equality(fa: Seq<LayoutModel>, fb: Seq<LayoutModel>)
    requires
        fa.len() == fb.len(),
        all_runtime_layouts(fa),
        all_runtime_layouts(fb),
    ensures
        fields_match_outcome(fa, fb) == Some(fa == fb),
    decreases fa,
{
    if fa.len() > 0 {
        law_runtime_layout_match_is_equality(fa[0], fb[0]);
        lemma_runtime_fields_match_is_equality(fa.drop_first(), fb.drop_first());
        if fa[0] == fb[0] && fa.drop_first() == fb.drop_first() {
            assert(fa =~= seq![fa[0]] + fa.drop_first());
            assert(fb =~= seq![fb[0]] + fb.drop_first());
        } else if fa[0] != fb[0] {
            assert(fa != fb);
        } else {
            assert(fa != fb) by {
                if fa == fb {
                    assert(fa.drop_first() =~= fb.drop_first());
                }
            }
        }
    } else {
        assert(fa =~= fb);
    }
}


/// Every layout with plain field lists matches itself.
pub proof fn law_runtime_layout_match_reflexive(a: LayoutModel)
    requires
        is_runtime_layout(a),
    ensures
        layout_match_outcome(a, a) == Some(true),
{
    law_runtime_layout_match_is_equality(a, a);
}

/// Matching is symmetric on layouts with plain field lists.
pub proof fn law_runtime_layout_match_symmetric(a: LayoutModel, b: LayoutModel)
    requires
        is_runtime_layout(a),
        is_runtime_layout(b),
    ensures
        layout_match_outcome(a, b) == layout_match_outcome(b, a),
{
    law_runtime_layout_match_is_equality(a, b);
    law_runtime_layout_match_is_equality(b, a);
}

/// Matching is transitive on layouts with plain field lists.
pub proof fn law_runtime_layout_match_transitive(a: LayoutModel, b: LayoutModel, c: LayoutModel)
    requires
        is_runtime_layout(a),
        is_runtime_layout(b),
        is_runtime_layout(c),
        layout_match_outcome(a, b) == Some(true),
        layout_match_outcome(b, c) == Some(true),
    ensures
        layout_match_outcome(a, c) == Some(true),
{
    law_runtime_layout_match_is_equality(a, b);
    law_runtime_layout_match_is_equality(b, c);
    law_runtime_layout_match_is_equality(a, c);
}

} // verus!
