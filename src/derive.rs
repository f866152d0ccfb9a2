use crate::text::{decimal, decimal_text, join_fold, joined, views};
use vstd::prelude::*;
use vstd::string::StringExecFns;

verus! {

/// The fields of an aggregate, or of one variant of a tagged union.
pub enum Fields {
    /// Named fields, `{ a: A, b: B }`: their names in order.
    Named(Vec<String>),
    /// Positional fields, `(A, B)`: how many there are.
    Unnamed(usize),
    /// No field list at all.
    Unit,
}

/// One variant of a tagged union: its name and its fields.
pub struct Variant {
    pub ident: String,
    pub fields: Fields,
}

/// The generic parameters of a type, written out for an impl: `impl<...>`, the type's own
/// arguments `Name<...>`, and the where clause (each possibly empty).
pub struct Generics {
    pub impl_generics: String,
    pub type_generics: String,
    pub where_clause: String,
}

/// What a type is made of.
pub enum Data {
    /// An aggregate of fields.
    Struct(Fields),
    /// A tagged union of variants.
    Enum(Vec<Variant>),
    /// An untagged union: which member is live cannot be known from the value.
    Union,
}

/// The shape of a type definition, from which an implementation of `MemoryUsage` is written.
pub struct TypeShape {
    pub ident: String,
    pub generics: Generics,
    pub data: Data,
}

/// Why no implementation can be written for a shape.
#[derive(Debug, PartialEq, Eq, Structural)]
pub enum ShapeError {
    /// Unions are refused: measuring one would mean guessing its live member.
    UnionNotSupported,
}

/// What a part reached as `access` (an expression of reference type) adds beyond its flat size.
pub open spec fn field_term(access: Seq<char>) -> Seq<char> {
    "MemoryUsage::size_of_val("@ + access + ", tracker) - std::mem::size_of_val("@ + access + ")"@
}

/// The sum of the terms of `accesses`, or `0` when there are none.
pub open spec fn extra_sum(accesses: Seq<Seq<char>>) -> Seq<char> {
    joined(accesses.map_values(|a: Seq<char>| field_term(a)), " + "@, "0"@)
}

/// How the fields of an aggregate are reached from `self`.
pub open spec fn struct_accesses(fields: Fields) -> Seq<Seq<char>> {
    match fields {
        Fields::Named(names) => views(names@).map_values(|n: Seq<char>| "&self."@ + n),
        Fields::Unnamed(count) => Seq::new(count as nat, |i: int| "&self."@ + decimal(i as nat)),
        Fields::Unit => Seq::empty(),
    }
}

/// The names a match arm binds to the fields of a variant.
pub open spec fn variant_bindings(fields: Fields) -> Seq<Seq<char>> {
    match fields {
        Fields::Named(names) => views(names@),
        Fields::Unnamed(count) => Seq::new(count as nat, |i: int| "value"@ + decimal(i as nat)),
        Fields::Unit => Seq::empty(),
    }
}

/// The pattern of a match arm that binds the fields of a variant.
pub open spec fn variant_pattern(fields: Fields) -> Seq<char> {
    match fields {
        Fields::Named(_) => " { "@ + joined(variant_bindings(fields), ", "@, ""@) + " }"@,
        Fields::Unnamed(_) => "("@ + joined(variant_bindings(fields), ", "@, ""@) + ")"@,
        Fields::Unit => ""@,
    }
}

/// The match arm of a variant: it adds what each of the variant's fields counts beyond its
/// flat size.
pub open spec fn variant_arm(variant: Variant) -> Seq<char> {
    "Self::"@ + variant.ident@ + variant_pattern(variant.fields) + " => "@ + extra_sum(
        variant_bindings(variant.fields),
    )
}

/// A where clause set off by a space, or nothing.
pub open spec fn where_part(clause: Seq<char>) -> Seq<char> {
    if clause.len() == 0 {
        ""@
    } else {
        " "@ + clause
    }
}

/// The impl of `MemoryUsage` for a type, whose method returns the flat size plus `extra`.
pub open spec fn impl_text(name: Seq<char>, generics: Generics, extra: Seq<char>) -> Seq<char> {
    "#[allow(dead_code)]\nimpl"@ + generics.impl_generics@ + " MemoryUsage for "@ + name
        + generics.type_generics@ + where_part(generics.where_clause@) + " {\n    fn size_of_val<Tr: MemoryUsageTracker + ?Sized>(&self, tracker: &mut Tr) -> usize {\n        std::mem::size_of_val(self) + "@
        + extra + "\n    }\n}\n"@
}

/// The impl for an aggregate: the flat size plus what each field counts beyond its own.
pub open spec fn struct_impl(name: Seq<char>, fields: Fields, generics: Generics) -> Seq<char> {
    impl_text(name, generics, extra_sum(struct_accesses(fields)))
}

/// The impl for a tagged union: the flat size plus what the fields of the live variant count
/// beyond their own.
pub open spec fn enum_impl(name: Seq<char>, variants: Seq<Variant>, generics: Generics) -> Seq<
    char,
> {
    impl_text(
        name,
        generics,
        "match self {\n            "@ + joined(
            variants.map_values(|v: Variant| variant_arm(v)),
            ",\n            "@,
            ""@,
        ) + "\n        }"@,
    )
}

fn field_term_text(access: &str) -> (r: String)
    ensures
        r@ == field_term(access@),
{
    let mut out = String::from_str("MemoryUsage::size_of_val(");
    out.append(access);
    out.append(", tracker) - std::mem::size_of_val(");
    out.append(access);
    out.append(")");
    out
}

/// The sum of the terms of `accesses`, or `0` when there are none.
fn extra_sum_text(accesses: &Vec<String>) -> (r: String)
    ensures
        r@ == extra_sum(views(accesses@)),
{
    let mut terms: Vec<String> = Vec::new();
    let mut i: usize = 0;
    while i < accesses.len()
        invariant
            i <= accesses@.len(),
            terms@.len() == i,
            forall|j: int| 0 <= j < i ==> #[trigger] terms@[j]@ == field_term(accesses@[j]@),
        decreases accesses@.len() - i,
    {
        terms.push(field_term_text(accesses[i].as_str()));
        i = i + 1;
    }
    assert(views(terms@) =~= views(accesses@).map_values(|a: Seq<char>| field_term(a)));
    join_fold(&terms, " + ", "0")
}

/// `prefix` followed by each of `names`.
fn prefixed_names(prefix: &str, names: &Vec<String>) -> (r: Vec<String>)
    ensures
        views(r@) == views(names@).map_values(|n: Seq<char>| prefix@ + n),
{
    let mut out: Vec<String> = Vec::new();
    let mut i: usize = 0;
    while i < names.len()
        invariant
            i <= names@.len(),
            out@.len() == i,
            forall|j: int| 0 <= j < i ==> #[trigger] out@[j]@ == prefix@ + names@[j]@,
        decreases names@.len() - i,
    {
        let mut name = String::from_str(prefix);
        name.append(names[i].as_str());
        out.push(name);
        i = i + 1;
    }
    assert(views(out@) =~= views(names@).map_values(|n: Seq<char>| prefix@ + n));
    out
}

/// `prefix` followed by each index below `count`, in decimal.
fn prefixed_indices(prefix: &str, count: usize) -> (r: Vec<String>)
    ensures
        views(r@) == Seq::new(count as nat, |i: int| prefix@ + decimal(i as nat)),
{
    let mut out: Vec<String> = Vec::new();
    let mut i: usize = 0;
    while i < count
        invariant
            i <= count,
            out@.len() == i,
            forall|j: int| 0 <= j < i ==> #[trigger] out@[j]@ == prefix@ + decimal(j as nat),
        decreases count - i,
    {
        let mut name = String::from_str(prefix);
        let digits = decimal_text(i);
        name.append(digits.as_str());
        out.push(name);
        i = i + 1;
    }
    assert(views(out@) =~= Seq::new(count as nat, |i: int| prefix@ + decimal(i as nat)));
    out
}

fn struct_access_texts(fields: &Fields) -> (r: Vec<String>)
    ensures
        views(r@) == struct_accesses(*fields),
{
    match fields {
        Fields::Named(names) => prefixed_names("&self.", names),
        Fields::Unnamed(count) => prefixed_indices("&self.", *count),
        Fields::Unit => {
            let out: Vec<String> = Vec::new();
            assert(views(out@) =~= Seq::<Seq<char>>::empty());
            out
        },
    }
}

fn variant_binding_texts(fields: &Fields) -> (r: Vec<String>)
    ensures
        views(r@) == variant_bindings(*fields),
{
    match fields {
        Fields::Named(names) => {
            let out = prefixed_names("", names);
            proof {
                reveal_strlit("");
                assert(views(out@) =~= views(names@));
            }
            out
        },
        Fields::Unnamed(count) => prefixed_indices("value", *count),
        Fields::Unit => {
            let out: Vec<String> = Vec::new();
            assert(views(out@) =~= Seq::<Seq<char>>::empty());
            out
        },
    }
}

fn variant_arm_text(variant: &Variant) -> (r: String)
    ensures
        r@ == variant_arm(*variant),
{
    let bindings = variant_binding_texts(&variant.fields);
    let mut out = String::from_str("Self::");
    out.append(variant.ident.as_str());
    match &variant.fields {
        Fields::Named(_) => {
            out.append(" { ");
            out.append(join_fold(&bindings, ", ", "").as_str());
            out.append(" }");
        },
        Fields::Unnamed(_) => {
            out.append("(");
            out.append(join_fold(&bindings, ", ", "").as_str());
            out.append(")");
        },
        Fields::Unit => {
            proof {
                reveal_strlit("");
            }
        },
    }
    out.append(" => ");
    out.append(extra_sum_text(&bindings).as_str());
    out
}

fn impl_text_of(name: &str, generics: &Generics, extra: &str) -> (r: String)
    ensures
        r@ == impl_text(name@, *generics, extra@),
{
    let mut out = String::from_str("#[allow(dead_code)]\nimpl");
    out.append(generics.impl_generics.as_str());
    out.append(" MemoryUsage for ");
    out.append(name);
    out.append(generics.type_generics.as_str());
    if generics.where_clause.as_str().is_empty() {
        proof {
            reveal_strlit("");
        }
    } else {
        out.append(" ");
        out.append(generics.where_clause.as_str());
    }
    out.append(
        " {\n    fn size_of_val<Tr: MemoryUsageTracker + ?Sized>(&self, tracker: &mut Tr) -> usize {\n        std::mem::size_of_val(self) + ",
    );
    out.append(extra);
    out.append("\n    }\n}\n");
    out
}

/// Writes the impl of `MemoryUsage` for the aggregate `struct_name`: its flat size plus what
/// each field counts beyond its own flat size, which the aggregate's flat size already holds.
pub fn derive_memory_usage_for_struct(struct_name: &str, data: &Fields, generics: &Generics) -> (r:
    String)
    ensures
        r@ == struct_impl(struct_name@, *data, *generics),
{
    let accesses = struct_access_texts(data);
    let sum = extra_sum_text(&accesses);
    impl_text_of(struct_name, generics, sum.as_str())
}

/// Writes the impl of `MemoryUsage` for the tagged union `struct_name`: its flat size plus what
/// the fields of the live variant count beyond their own flat sizes.
pub fn derive_memory_usage_for_enum(struct_name: &str, data: &Vec<Variant>, generics: &Generics) -> (r:
    String)
    ensures
        r@ == enum_impl(struct_name@, data@, *generics),
{
    let mut arms: Vec<String> = Vec::new();
    let mut i: usize = 0;
    while i < data.len()
        invariant
            i <= data@.len(),
            arms@.len() == i,
            forall|j: int| 0 <= j < i ==> #[trigger] arms@[j]@ == variant_arm(data@[j]),
        decreases data@.len() - i,
    {
        arms.push(variant_arm_text(&data[i]));
        i = i + 1;
    }
    assert(views(arms@) =~= data@.map_values(|v: Variant| variant_arm(v)));
    let mut body = String::from_str("match self {\n            ");
    body.append(join_fold(&arms, ",\n            ", "").as_str());
    body.append("\n        }");
    impl_text_of(struct_name, generics, body.as_str())
}

/// Writes the impl of `MemoryUsage` for a type of the given shape; unions are refused.
pub fn derive_memory_usage(input: &TypeShape) -> (r: Result<String, ShapeError>)
    ensures
        match input.data {
            Data::Struct(fields) => r == Ok::<String, ShapeError>(r->Ok_0) && r->Ok_0@
                == struct_impl(input.ident@, fields, input.generics),
            Data::Enum(variants) => r == Ok::<String, ShapeError>(r->Ok_0) && r->Ok_0@
                == enum_impl(input.ident@, variants@, input.generics),
            Data::Union => r == Err::<String, ShapeError>(ShapeError::UnionNotSupported),
        },
{
    match &input.data {
        Data::Struct(fields) => Ok(
            derive_memory_usage_for_struct(input.ident.as_str(), fields, &input.generics),
        ),
        Data::Enum(variants) => Ok(
            derive_memory_usage_for_enum(input.ident.as_str(), variants, &input.generics),
        ),
        Data::Union => Err(ShapeError::UnionNotSupported),
    }
}

} // verus!
