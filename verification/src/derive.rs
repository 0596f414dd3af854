//! Synthesis of a record's `Default` and `InheritAble` impls from its schema.

use crate::policy::entry;
use crate::policy::field_config_of;
use crate::policy::is_default_entry;
use crate::policy::is_entry;
use crate::policy::lemma_duplicate_default_refused;
use crate::policy::parse_field_config;
use crate::policy::policy_message;
use crate::policy::Attribute;
use crate::policy::AttributeView;
use crate::policy::FieldConfig;
use crate::policy::PolicyError;
use crate::policy::PolicyErrorView;
use vstd::prelude::*;
use vstd::string::StringExecFns;

verus! {

/// A field of a record as it is declared: its name, its type and its
/// annotations, in source order.
#[derive(Debug, PartialEq, Eq)]
pub struct Field {
    pub ident: String,
    pub ty: String,
    pub attrs: Vec<Attribute>,
}

/// The model of a declared field.
pub struct FieldView {
    pub ident: Seq<char>,
    pub ty: Seq<char>,
    pub attrs: Seq<AttributeView>,
}

impl DeepView for Field {
    type V = FieldView;

    open spec fn deep_view(&self) -> FieldView {
        FieldView { ident: self.ident@, ty: self.ty@, attrs: self.attrs.deep_view() }
    }
}

/// A field with its policy read.
#[derive(Debug, PartialEq, Eq)]
pub struct ParsedField {
    pub ident: String,
    pub ty: String,
    pub config: FieldConfig<String>,
}

/// The model of a field with its policy.
pub struct ParsedFieldView {
    pub ident: Seq<char>,
    pub ty: Seq<char>,
    pub config: FieldConfig<Seq<char>>,
}

impl DeepView for ParsedField {
    type V = ParsedFieldView;

    open spec fn deep_view(&self) -> ParsedFieldView {
        ParsedFieldView { ident: self.ident@, ty: self.ty@, config: self.config.deep_view() }
    }
}

/// How the fields of the annotated item are laid out.
#[derive(Debug, Clone, Copy, PartialEq, Eq, Structural)]
pub enum RecordShape {
    /// A struct whose fields have names.
    NamedFields,
    /// A struct whose fields are told apart by position.
    PositionalFields,
    /// A struct without fields.
    NoFields,
    /// An enum or a union.
    NotAStruct,
}

/// A record type as it is declared.
#[derive(Debug, PartialEq, Eq)]
pub struct Schema {
    pub name: String,
    pub shape: RecordShape,
    pub fields: Vec<Field>,
}

/// The model of a declared record.
pub struct SchemaView {
    pub name: Seq<char>,
    pub shape: RecordShape,
    pub fields: Seq<FieldView>,
}

impl DeepView for Schema {
    type V = SchemaView;

    open spec fn deep_view(&self) -> SchemaView {
        SchemaView { name: self.name@, shape: self.shape, fields: self.fields.deep_view() }
    }
}

/// Why nothing was synthesized for a record.
#[derive(Debug, PartialEq, Eq)]
pub enum DeriveError {
    /// The record is not a struct with named fields.
    Shape { record: String },
    /// The annotations of `field` do not make a policy.
    Policy { field: String, error: PolicyError },
}

/// The model of a refusal.
pub enum DeriveErrorView {
    Shape { record: Seq<char> },
    Policy { field: Seq<char>, error: PolicyErrorView },
}

impl DeepView for DeriveError {
    type V = DeriveErrorView;

    open spec fn deep_view(&self) -> DeriveErrorView {
        match *self {
            DeriveError::Shape { record } => DeriveErrorView::Shape { record: record@ },
            DeriveError::Policy { field, error } => DeriveErrorView::Policy {
                field: field@,
                error: error.deep_view(),
            },
        }
    }
}

/// `parts` with `", "` between them.
pub open spec fn comma_separated(parts: Seq<Seq<char>>) -> Seq<char>
    decreases parts.len(),
{
    if parts.len() == 0 {
        Seq::empty()
    } else if parts.len() == 1 {
        parts[0]
    } else {
        comma_separated(parts.drop_last()) + ", "@ + parts.last()
    }
}

/// How a field is initialized by `default()`: with the override where the
/// policy has one, with the intrinsic default of its type otherwise.
pub open spec fn default_init_text(field: ParsedFieldView) -> Seq<char> {
    field.ident + ": "@ + match field.config.default {
        Some(expr) => expr,
        None => "<"@ + field.ty + " as ::core::default::Default>::default()"@,
    }
}

/// How a field is initialized by `inherit()`: with a clone of its own value
/// where the policy takes it out of merging, with its own merge otherwise.
pub open spec fn inherit_init_text(field: ParsedFieldView) -> Seq<char> {
    field.ident + ": "@ + if field.config.skip_inherit {
        "self."@ + field.ident + ".clone()"@
    } else {
        "::inherit_config::InheritAble::inherit(&self."@ + field.ident + ", &other."@
            + field.ident + ")"@
    }
}

/// The `Default` impl of a record, fields in schema order.
pub open spec fn default_impl_text(name: Seq<char>, fields: Seq<ParsedFieldView>) -> Seq<char> {
    "impl ::core::default::Default for "@ + name + " { fn default() -> Self { Self { "@
        + comma_separated(fields.map_values(|f: ParsedFieldView| default_init_text(f)))
        + " } } }"@
}

/// The `InheritAble` impl of a record, fields in schema order.
pub open spec fn inherit_impl_text(name: Seq<char>, fields: Seq<ParsedFieldView>) -> Seq<char> {
    "impl ::inherit_config::InheritAble for "@ + name
        + " { fn inherit(&self, other: &Self) -> Self { Self { "@ + comma_separated(
        fields.map_values(|f: ParsedFieldView| inherit_init_text(f)),
    ) + " } } }"@
}

/// An override stands in `default()` as it was written; a field without one
/// gets the intrinsic default of its type.
pub proof fn lemma_default_init_text(field: ParsedFieldView)
    ensures
        field.config.default matches Some(expr) ==> default_init_text(field) == field.ident
            + ": "@ + expr,
        field.config.default is None ==> default_init_text(field) == field.ident + ": "@ + ("<"@
            + field.ty + " as ::core::default::Default>::default()"@),
{
}

/// One more part after a comma-separated prefix.
proof fn lemma_comma_separated_step(parts: Seq<Seq<char>>, n: int)
    requires
        0 <= n < parts.len(),
    ensures
        comma_separated(parts.take(n + 1)) == if n == 0 {
            parts[n]
        } else {
            comma_separated(parts.take(n)) + ", "@ + parts[n]
        },
{
    let next = parts.take(n + 1);
    assert(next.last() == parts[n]);
    assert(next.drop_last() =~= parts.take(n));
    if n == 0 {
        assert(next[0] == parts[0]);
    }
}

fn default_init(field: &ParsedField) -> (r: String)
    ensures
        r@ == default_init_text(field.deep_view()),
{
    let mut out = field.ident.clone();
    out.append(": ");
    match &field.config.default {
        Some(expr) => {
            out.append(expr.as_str());
        },
        None => {
            let ghost before = out@;
            out.append("<");
            out.append(field.ty.as_str());
            out.append(" as ::core::default::Default>::default()");
            assert(out@ =~= before + ("<"@ + field.ty@
                + " as ::core::default::Default>::default()"@));
        },
    }
    out
}

fn inherit_init(field: &ParsedField) -> (r: String)
    ensures
        r@ == inherit_init_text(field.deep_view()),
{
    let mut out = field.ident.clone();
    out.append(": ");
    let ghost before = out@;
    if field.config.skip_inherit {
        out.append("self.");
        out.append(field.ident.as_str());
        out.append(".clone()");
        assert(out@ =~= before + ("self."@ + field.ident@ + ".clone()"@));
    } else {
        out.append("::inherit_config::InheritAble::inherit(&self.");
        out.append(field.ident.as_str());
        out.append(", &other.");
        out.append(field.ident.as_str());
        out.append(")");
        assert(out@ =~= before + ("::inherit_config::InheritAble::inherit(&self."@
            + field.ident@ + ", &other."@ + field.ident@ + ")"@));
    }
    out
}

/// Writes the `Default` impl of the record `struct_name`.
///
/// Each field is initialized in schema order, with the override of its
/// policy taken verbatim where there is one.
pub fn generate_default_impl(struct_name: &str, fields: &Vec<ParsedField>) -> (r: String)
    ensures
        r@ == default_impl_text(struct_name@, fields.deep_view()),
{
    let ghost inits = fields.deep_view().map_values(|f: ParsedFieldView| default_init_text(f));
    let mut out = String::from_str("impl ::core::default::Default for ");
    out.append(struct_name);
    out.append(" { fn default() -> Self { Self { ");
    let ghost head = out@;
    let mut i: usize = 0;
    assert(out@ =~= head + comma_separated(inits.take(0)));
    while i < fields.len()
        invariant
            i <= fields.len(),
            inits == fields.deep_view().map_values(|f: ParsedFieldView| default_init_text(f)),
            out@ == head + comma_separated(inits.take(i as int)),
        decreases fields.len() - i,
    {
        if i > 0 {
            out.append(", ");
        }
        let init = default_init(&fields[i]);
        out.append(init.as_str());
        proof {
            lemma_comma_separated_step(inits, i as int);
            assert(out@ =~= head + comma_separated(inits.take(i + 1)));
        }
        i += 1;
    }
    assert(inits.take(i as int) =~= inits);
    out.append(" } } }");
    out
}

/// Writes the `InheritAble` impl of the record `struct_name`.
///
/// Each field is resolved in schema order: by its own merge against the
/// parent's field of the same name, or carried over unchanged where its
/// policy takes it out of merging.
pub fn generate_inherit_impl(struct_name: &str, fields: &Vec<ParsedField>) -> (r: String)
    ensures
        r@ == inherit_impl_text(struct_name@, fields.deep_view()),
{
    let ghost inits = fields.deep_view().map_values(|f: ParsedFieldView| inherit_init_text(f));
    let mut out = String::from_str("impl ::inherit_config::InheritAble for ");
    out.append(struct_name);
    out.append(" { fn inherit(&self, other: &Self) -> Self { Self { ");
    let ghost head = out@;
    let mut i: usize = 0;
    assert(out@ =~= head + comma_separated(inits.take(0)));
    while i < fields.len()
        invariant
            i <= fields.len(),
            inits == fields.deep_view().map_values(|f: ParsedFieldView| inherit_init_text(f)),
            out@ == head + comma_separated(inits.take(i as int)),
        decreases fields.len() - i,
    {
        if i > 0 {
            out.append(", ");
        }
        let init = inherit_init(&fields[i]);
        out.append(init.as_str());
        proof {
            lemma_comma_separated_step(inits, i as int);
            assert(out@ =~= head + comma_separated(inits.take(i + 1)));
        }
        i += 1;
    }
    assert(inits.take(i as int) =~= inits);
    out.append(" } } }");
    out
}

/// The fields of a record with their policies read, or the error of the
/// first field whose annotations are refused.
pub open spec fn parsed_fields_of(fields: Seq<FieldView>) -> Result<
    Seq<ParsedFieldView>,
    DeriveErrorView,
>
    decreases fields.len(),
{
    if fields.len() == 0 {
        Ok(Seq::empty())
    } else {
        match field_config_of(fields[0].attrs) {
            Err(error) => Err(DeriveErrorView::Policy { field: fields[0].ident, error }),
            Ok(config) => match parsed_fields_of(fields.skip(1)) {
                Err(e) => Err(e),
                Ok(rest) => Ok(
                    seq![ParsedFieldView { ident: fields[0].ident, ty: fields[0].ty, config }]
                        + rest,
                ),
            },
        }
    }
}

/// What is synthesized for a record: both impls, or the reason why there
/// are none.
pub open spec fn derive_text(schema: SchemaView) -> Result<Seq<char>, DeriveErrorView> {
    if schema.shape != RecordShape::NamedFields {
        Err(DeriveErrorView::Shape { record: schema.name })
    } else {
        match parsed_fields_of(schema.fields) {
            Err(e) => Err(e),
            Ok(fields) => Ok(
                default_impl_text(schema.name, fields) + " "@ + inherit_impl_text(
                    schema.name,
                    fields,
                ),
            ),
        }
    }
}

/// The model of the synthesized text or of the error in its place.
pub open spec fn derive_result_view(r: Result<String, DeriveError>) -> Result<
    Seq<char>,
    DeriveErrorView,
> {
    match r {
        Ok(text) => Ok(text@),
        Err(e) => Err(e.deep_view()),
    }
}

/// Synthesizes the `Default` and `InheritAble` impls of a record.
///
/// The record must be a struct with named fields, and the annotations of
/// every field must make a policy. Where they do, the result is the source
/// text of the two impls; where they do not, it is the error of the first
/// offence in schema order, and no text at all.
pub fn config_derive(schema: &Schema) -> (r: Result<String, DeriveError>)
    ensures
        derive_result_view(r) == derive_text(schema.deep_view()),
{
    match schema.shape {
        RecordShape::NamedFields => {},
        _ => {
            return Err(DeriveError::Shape { record: schema.name.clone() });
        },
    }
    let ghost all = schema.fields.deep_view();
    let mut parsed: Vec<ParsedField> = Vec::new();
    let mut i: usize = 0;
    assert(all.skip(0) =~= all);
    assert(parsed.deep_view() =~= Seq::empty());
    assert(forall|rest: Seq<ParsedFieldView>| Seq::<ParsedFieldView>::empty() + rest =~= rest);
    while i < schema.fields.len()
        invariant
            i <= schema.fields.len(),
            schema.shape == RecordShape::NamedFields,
            all == schema.fields.deep_view(),
            parsed_fields_of(all) == match parsed_fields_of(all.skip(i as int)) {
                Ok(rest) => Ok(parsed.deep_view() + rest),
                Err(e) => Err(e),
            },
        decreases schema.fields.len() - i,
    {
        let field = &schema.fields[i];
        let ghost before = parsed.deep_view();
        proof {
            assert(all.skip(i as int)[0] == field.deep_view());
            assert(all.skip(i as int).skip(1) =~= all.skip(i + 1));
        }
        match parse_field_config(&field.attrs) {
            Err(error) => {
                return Err(DeriveError::Policy { field: field.ident.clone(), error });
            },
            Ok(config) => {
                let next = ParsedField { ident: field.ident.clone(), ty: field.ty.clone(), config };
                parsed.push(next);
                proof {
                    assert(parsed.deep_view() =~= before.push(next.deep_view()));
                    assert forall|rest: Seq<ParsedFieldView>|
                        before + (seq![next.deep_view()] + rest) == #[trigger] (parsed.deep_view()
                            + rest) by {
                        assert(before + (seq![next.deep_view()] + rest) =~= parsed.deep_view()
                            + rest);
                    }
                }
            },
        }
        i += 1;
    }
    assert(parsed.deep_view() + Seq::<ParsedFieldView>::empty() =~= parsed.deep_view());
    let mut out = generate_default_impl(schema.name.as_str(), &parsed);
    out.append(" ");
    let merge = generate_inherit_impl(schema.name.as_str(), &parsed);
    out.append(merge.as_str());
    Ok(out)
}

/// What a refused record is reported with.
pub open spec fn derive_message(e: DeriveErrorView) -> Seq<char> {
    match e {
        DeriveErrorView::Shape { record } => "`"@ + record
            + "`: Config can only be derived for structs with named fields"@,
        DeriveErrorView::Policy { field, error } => "field `"@ + field + "`: "@ + policy_message(
            error,
        ),
    }
}

impl DeriveError {
    /// A line that names the record or the field and says what is wrong
    /// with it.
    pub fn message(&self) -> (r: String)
        ensures
            r@ == derive_message(self.deep_view()),
    {
        match self {
            DeriveError::Shape { record } => {
                let mut out = String::from_str("`");
                out.append(record.as_str());
                out.append("`: Config can only be derived for structs with named fields");
                out
            },
            DeriveError::Policy { field, error } => {
                let mut out = String::from_str("field `");
                out.append(field.as_str());
                out.append("`: ");
                let detail = error.message();
                out.append(detail.as_str());
                out
            },
        }
    }
}

/// The fields of a record are accepted exactly where the annotations of
/// each field make a policy. Each field then keeps its name and its type,
/// and gets that policy.
pub proof fn lemma_parsed_fields_accepted(fields: Seq<FieldView>)
    ensures
        parsed_fields_of(fields) is Ok <==> forall|k: int|
            0 <= k < fields.len() ==> field_config_of((#[trigger] fields[k]).attrs) is Ok,
        parsed_fields_of(fields) matches Ok(out) ==> {
            &&& out.len() == fields.len()
            &&& forall|k: int|
                0 <= k < fields.len() ==> #[trigger] out[k] == (ParsedFieldView {
                    ident: fields[k].ident,
                    ty: fields[k].ty,
                    config: field_config_of(fields[k].attrs)->Ok_0,
                })
        },
    decreases fields.len(),
{
    if fields.len() > 0 {
        let rest = fields.skip(1);
        lemma_parsed_fields_accepted(rest);
        assert forall|k: int| 0 <= k < rest.len() implies #[trigger] rest[k] == fields[k + 1] by {}
        if forall|k: int|
            0 <= k < fields.len() ==> field_config_of((#[trigger] fields[k]).attrs) is Ok {
            assert forall|k: int| 0 <= k < rest.len() implies field_config_of(
                (#[trigger] rest[k]).attrs,
            ) is Ok by {
                assert(rest[k] == fields[k + 1]);
            }
        }
        if parsed_fields_of(fields) is Ok {
            assert forall|k: int| 0 <= k < fields.len() implies field_config_of(
                (#[trigger] fields[k]).attrs,
            ) is Ok by {
                if k > 0 {
                    assert(fields[k] == rest[k - 1]);
                }
            }
            let out = parsed_fields_of(fields)->Ok_0;
            let tail = parsed_fields_of(rest)->Ok_0;
            assert forall|k: int| 0 <= k < fields.len() implies #[trigger] out[k] == (
            ParsedFieldView {
                ident: fields[k].ident,
                ty: fields[k].ty,
                config: field_config_of(fields[k].attrs)->Ok_0,
            }) by {
                if k > 0 {
                    assert(out[k] == tail[k - 1]);
                    assert(fields[k] == rest[k - 1]);
                }
            }
        }
    }
}

/// Where the annotations of a field are refused and those of the fields
/// before it are not, the error is that of this field, under its name.
pub proof fn lemma_parsed_fields_refused(fields: Seq<FieldView>, k: int)
    requires
        0 <= k < fields.len(),
        field_config_of(fields[k].attrs) is Err,
        forall|m: int| 0 <= m < k ==> field_config_of((#[trigger] fields[m]).attrs) is Ok,
    ensures
        parsed_fields_of(fields) == Err::<Seq<ParsedFieldView>, _>(
            DeriveErrorView::Policy {
                field: fields[k].ident,
                error: field_config_of(fields[k].attrs)->Err_0,
            },
        ),
    decreases k,
{
    if k > 0 {
        let rest = fields.skip(1);
        assert(rest[k - 1] == fields[k]);
        assert forall|m: int| 0 <= m < k - 1 implies field_config_of(
            (#[trigger] rest[m]).attrs,
        ) is Ok by {
            assert(rest[m] == fields[m + 1]);
        }
        lemma_parsed_fields_refused(rest, k - 1);
        assert(field_config_of(fields[0].attrs) is Ok);
    }
}

/// Impls are synthesized exactly for a struct with named fields in which
/// the annotations of every field make a policy.
pub proof fn lemma_derive_accepted(schema: SchemaView)
    ensures
        derive_text(schema) is Ok <==> schema.shape == RecordShape::NamedFields && forall|k: int|
            0 <= k < schema.fields.len() ==> field_config_of(
                (#[trigger] schema.fields[k]).attrs,
            ) is Ok,
{
    lemma_parsed_fields_accepted(schema.fields);
}

/// A record that is not a struct with named fields is refused under its
/// name, whatever its fields hold.
pub proof fn lemma_shape_refused(schema: SchemaView)
    requires
        schema.shape != RecordShape::NamedFields,
    ensures
        derive_text(schema) == Err::<Seq<char>, _>(DeriveErrorView::Shape { record: schema.name }),
{
}

/// A record with two `default = ...` entries on one field is refused: no
/// text is synthesized. Where the record is a struct with named fields and
/// the fields before that one are accepted, the error names that field.
pub proof fn lemma_derive_refuses_duplicate_default(
    schema: SchemaView,
    k: int,
    a: int,
    i: int,
    b: int,
    j: int,
)
    requires
        0 <= k < schema.fields.len(),
        is_entry(schema.fields[k].attrs, a, i),
        is_entry(schema.fields[k].attrs, b, j),
        is_default_entry(entry(schema.fields[k].attrs, a, i)),
        is_default_entry(entry(schema.fields[k].attrs, b, j)),
        a != b || i != j,
    ensures
        derive_text(schema) is Err,
        schema.shape == RecordShape::NamedFields && (forall|m: int|
            0 <= m < k ==> field_config_of((#[trigger] schema.fields[m]).attrs) is Ok)
            ==> (derive_text(schema) matches Err(DeriveErrorView::Policy { field, .. }) && field
            == schema.fields[k].ident),
{
    lemma_duplicate_default_refused(schema.fields[k].attrs, a, i, b, j);
    lemma_derive_accepted(schema);
    if schema.shape == RecordShape::NamedFields && (forall|m: int|
        0 <= m < k ==> field_config_of((#[trigger] schema.fields[m]).attrs) is Ok) {
        lemma_parsed_fields_refused(schema.fields, k);
    }
}

} // verus!
