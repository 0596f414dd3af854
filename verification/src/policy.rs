//! Per-field policy: the annotations a field carries and the directives they
//! stand for.

use quote::ToTokens;
use syn::parse::Parser;
use syn::punctuated::Punctuated;
use syn::token::Comma;
use syn::Meta;
use vstd::prelude::*;
use vstd::string::StringExecFns;

verus! {

/// One entry of an annotation's argument list.
#[derive(Debug, PartialEq, Eq)]
pub enum MetaItem {
    /// A bare path, like `skip_inherit`.
    Path { path: String },
    /// A path with a value, like `default = 7`.
    NameValue { path: String, value: String },
    /// A path with a nested list, like `any(a, b)`; `text` is the whole entry.
    List { text: String },
}

/// The model of an entry.
pub enum MetaItemView {
    Path { path: Seq<char> },
    NameValue { path: Seq<char>, value: Seq<char> },
    List { text: Seq<char> },
}

impl DeepView for MetaItem {
    type V = MetaItemView;

    open spec fn deep_view(&self) -> MetaItemView {
        match *self {
            MetaItem::Path { path } => MetaItemView::Path { path: path@ },
            MetaItem::NameValue { path, value } => MetaItemView::NameValue {
                path: path@,
                value: value@,
            },
            MetaItem::List { text } => MetaItemView::List { text: text@ },
        }
    }
}

/// One annotation on a field: `#[path(items)]`.
///
/// `items` is the argument list entry by entry, or the reason why the
/// annotation has no well-formed argument list.
#[derive(Debug, PartialEq, Eq)]
pub struct Attribute {
    pub path: String,
    pub items: Result<Vec<MetaItem>, String>,
}

/// The model of an annotation.
pub struct AttributeView {
    pub path: Seq<char>,
    pub items: Result<Seq<MetaItemView>, Seq<char>>,
}

impl DeepView for Attribute {
    type V = AttributeView;

    open spec fn deep_view(&self) -> AttributeView {
        AttributeView {
            path: self.path@,
            items: match self.items {
                Ok(items) => Ok(items.deep_view()),
                Err(reason) => Err(reason@),
            },
        }
    }
}

/// The directives of one field.
///
/// `E` is how an override of the intrinsic default is held: as source text
/// when a record's impls are synthesized, as a value when records are built
/// and merged directly.
#[derive(Debug, PartialEq, Eq)]
pub struct FieldConfig<E> {
    /// What the field starts as, in place of its type's intrinsic default.
    pub default: Option<E>,
    /// Whether the field keeps its own value when layers are merged.
    pub skip_inherit: bool,
}

impl<E: DeepView> DeepView for FieldConfig<E> {
    type V = FieldConfig<E::V>;

    open spec fn deep_view(&self) -> FieldConfig<E::V> {
        FieldConfig { default: self.default.deep_view(), skip_inherit: self.skip_inherit }
    }
}

impl<E: Clone> Clone for FieldConfig<E> {
    fn clone(&self) -> (r: Self)
        ensures
            r.skip_inherit == self.skip_inherit,
            self.default is None ==> r.default is None,
            self.default matches Some(e) ==> r.default matches Some(c) && cloned::<E>(e, c),
    {
        FieldConfig { default: self.default.clone(), skip_inherit: self.skip_inherit }
    }
}

impl<E> Default for FieldConfig<E> {
    /// No override, and the field takes part in merging.
    fn default() -> (r: Self)
        ensures
            r.default is None,
            !r.skip_inherit,
    {
        FieldConfig { default: None, skip_inherit: false }
    }
}

/// Why a field's annotations do not make a policy.
#[derive(Debug, PartialEq, Eq)]
pub enum PolicyError {
    /// A second `default = ...` on one field.
    DuplicateDefault { annotation: String },
    /// An entry that is neither `default = ...` nor `skip_inherit`.
    Unrecognized { annotation: String },
    /// A `config` annotation without a well-formed argument list.
    Malformed { reason: String },
}

/// The model of a refused policy.
pub enum PolicyErrorView {
    DuplicateDefault { annotation: Seq<char> },
    Unrecognized { annotation: Seq<char> },
    Malformed { reason: Seq<char> },
}

impl DeepView for PolicyError {
    type V = PolicyErrorView;

    open spec fn deep_view(&self) -> PolicyErrorView {
        match *self {
            PolicyError::DuplicateDefault { annotation } => PolicyErrorView::DuplicateDefault {
                annotation: annotation@,
            },
            PolicyError::Unrecognized { annotation } => PolicyErrorView::Unrecognized {
                annotation: annotation@,
            },
            PolicyError::Malformed { reason } => PolicyErrorView::Malformed { reason: reason@ },
        }
    }
}

/// What a refused annotation is reported with.
pub open spec fn policy_message(e: PolicyErrorView) -> Seq<char> {
    match e {
        PolicyErrorView::DuplicateDefault { annotation } => "duplicate `default` attribute: `"@
            + annotation + "`"@,
        PolicyErrorView::Unrecognized { annotation } => "unrecognized config attribute: `"@
            + annotation + "`"@,
        PolicyErrorView::Malformed { reason } => "malformed config attribute: "@ + reason,
    }
}

impl PolicyError {
    /// A line that says what is wrong and quotes the offending annotation.
    pub fn message(&self) -> (r: String)
        ensures
            r@ == policy_message(self.deep_view()),
    {
        match self {
            PolicyError::DuplicateDefault { annotation } => {
                let mut out = String::from_str("duplicate `default` attribute: `");
                out.append(annotation.as_str());
                out.append("`");
                out
            },
            PolicyError::Unrecognized { annotation } => {
                let mut out = String::from_str("unrecognized config attribute: `");
                out.append(annotation.as_str());
                out.append("`");
                out
            },
            PolicyError::Malformed { reason } => {
                let mut out = String::from_str("malformed config attribute: ");
                out.append(reason.as_str());
                out
            },
        }
    }
}

/// The source text of an entry.
pub open spec fn item_text(item: MetaItemView) -> Seq<char> {
    match item {
        MetaItemView::Path { path } => path,
        MetaItemView::NameValue { path, value } => path + " = "@ + value,
        MetaItemView::List { text } => text,
    }
}

/// Whether an entry is `default = <expr>`.
pub open spec fn is_default_entry(item: MetaItemView) -> bool {
    item matches MetaItemView::NameValue { path, .. } && path == "default"@
}

/// Whether an entry is `skip_inherit`.
pub open spec fn is_skip_entry(item: MetaItemView) -> bool {
    item matches MetaItemView::Path { path } && path == "skip_inherit"@
}

/// What one entry does to the policy read so far.
pub open spec fn apply_item(config: FieldConfig<Seq<char>>, item: MetaItemView) -> Result<
    FieldConfig<Seq<char>>,
    PolicyErrorView,
> {
    if is_default_entry(item) {
        if config.default is Some {
            Err(PolicyErrorView::DuplicateDefault { annotation: item_text(item) })
        } else {
            Ok(FieldConfig { default: Some(item->value), skip_inherit: config.skip_inherit })
        }
    } else if is_skip_entry(item) {
        Ok(FieldConfig { default: config.default, skip_inherit: true })
    } else {
        Err(PolicyErrorView::Unrecognized { annotation: item_text(item) })
    }
}

/// What a list of entries does to the policy read so far: each entry in
/// turn, up to the first that is refused.
pub open spec fn apply_items(config: FieldConfig<Seq<char>>, items: Seq<MetaItemView>) -> Result<
    FieldConfig<Seq<char>>,
    PolicyErrorView,
>
    decreases items.len(),
{
    if items.len() == 0 {
        Ok(config)
    } else {
        match apply_item(config, items[0]) {
            Ok(next) => apply_items(next, items.skip(1)),
            Err(e) => Err(e),
        }
    }
}

/// What one annotation does to the policy read so far. Only `config`
/// annotations count.
pub open spec fn apply_attribute(config: FieldConfig<Seq<char>>, attr: AttributeView) -> Result<
    FieldConfig<Seq<char>>,
    PolicyErrorView,
> {
    if attr.path != "config"@ {
        Ok(config)
    } else {
        match attr.items {
            Ok(items) => apply_items(config, items),
            Err(reason) => Err(PolicyErrorView::Malformed { reason }),
        }
    }
}

/// What a field's annotations do to the policy read so far: each annotation
/// in turn, up to the first that is refused.
pub open spec fn apply_attributes(
    config: FieldConfig<Seq<char>>,
    attrs: Seq<AttributeView>,
) -> Result<FieldConfig<Seq<char>>, PolicyErrorView>
    decreases attrs.len(),
{
    if attrs.len() == 0 {
        Ok(config)
    } else {
        match apply_attribute(config, attrs[0]) {
            Ok(next) => apply_attributes(next, attrs.skip(1)),
            Err(e) => Err(e),
        }
    }
}

/// The policy that a field's annotations stand for.
pub open spec fn field_config_of(attrs: Seq<AttributeView>) -> Result<
    FieldConfig<Seq<char>>,
    PolicyErrorView,
> {
    apply_attributes(FieldConfig { default: None, skip_inherit: false }, attrs)
}

/// The model of a policy or of the error in its place.
pub open spec fn config_result_view(r: Result<FieldConfig<String>, PolicyError>) -> Result<
    FieldConfig<Seq<char>>,
    PolicyErrorView,
> {
    match r {
        Ok(config) => Ok(config.deep_view()),
        Err(e) => Err(e.deep_view()),
    }
}

/// Whether `text` reads exactly `word`.
fn text_is(text: &String, word: &str) -> (r: bool)
    ensures
        r == (text@ == word@),
{
    let other = String::from_str(word);
    *text == other
}

impl MetaItem {
    /// The source text of this entry.
    pub fn text(&self) -> (r: String)
        ensures
            r@ == item_text(self.deep_view()),
    {
        match self {
            MetaItem::Path { path } => path.clone(),
            MetaItem::NameValue { path, value } => {
                let mut out = path.clone();
                out.append(" = ");
                out.append(value.as_str());
                out
            },
            MetaItem::List { text } => text.clone(),
        }
    }
}

/// Reads `args` as a comma-separated list of meta items: `syn`'s
/// `Parser::parse_str` on `Punctuated::<Meta, Comma>::parse_terminated`. Each
/// item is handed out by its variant, with its path and its tokens turned
/// into text by `quote`'s `ToTokens::to_token_stream`; a parse error is
/// handed out as its message.
///
/// Nothing is claimed of what comes back: `syn` decides what is well formed,
/// and how tokens are spaced as text is left to the token printer.
#[verifier::external_body]
fn parse_meta_items(args: &str) -> (r: Result<Vec<MetaItem>, String>) {
    let parsed = Punctuated::<Meta, Comma>::parse_terminated.parse_str(args);
    let list = parsed.map_err(|e| e.to_string())?;
    Ok(list.into_iter().map(|meta| match meta {
        Meta::Path(p) => MetaItem::Path { path: p.to_token_stream().to_string() },
        Meta::NameValue(nv) => MetaItem::NameValue {
            path: nv.path.to_token_stream().to_string(),
            value: nv.value.to_token_stream().to_string(),
        },
        Meta::List(l) => MetaItem::List { text: l.to_token_stream().to_string() },
    }).collect())
}

impl Attribute {
    /// The annotation `#[path(args)]`, or `#[path]` where `args` is `None`.
    ///
    /// The argument list is parsed as Rust attribute syntax. Whether it is
    /// well formed, and what its entries are, is for the parser to say; an
    /// annotation without an argument list never is.
    pub fn parse(path: &str, args: Option<&str>) -> (r: Attribute)
        ensures
            r.path@ == path@,
            args is None ==> r.deep_view().items == Err::<Seq<MetaItemView>, _>(
                "expected attribute arguments in parentheses"@,
            ),
    {
        let items = match args {
            Some(text) => parse_meta_items(text),
            None => Err(String::from_str("expected attribute arguments in parentheses")),
        };
        Attribute { path: String::from_str(path), items }
    }
}

/// Applies the entries of one argument list to the policy read so far.
///
/// `default = <expr>` sets the override, once; `skip_inherit` takes the field
/// out of merging; the first entry that is anything else, or a second
/// `default`, is refused.
pub fn apply_meta_items(config: FieldConfig<String>, items: &Vec<MetaItem>) -> (r: Result<
    FieldConfig<String>,
    PolicyError,
>)
    ensures
        config_result_view(r) == apply_items(config.deep_view(), items.deep_view()),
{
    let ghost start = config.deep_view();
    let ghost all = items.deep_view();
    let mut current = config;
    let mut j: usize = 0;
    assert(all.skip(0) =~= all);
    while j < items.len()
        invariant
            j <= items.len(),
            start == config.deep_view(),
            all == items.deep_view(),
            apply_items(start, all) == apply_items(current.deep_view(), all.skip(j as int)),
        decreases items.len() - j,
    {
        let item = &items[j];
        proof {
            assert(all.skip(j as int).skip(1) =~= all.skip(j + 1));
        }
        match item {
            MetaItem::NameValue { path, value } => {
                if !text_is(path, "default") {
                    return Err(PolicyError::Unrecognized { annotation: item.text() });
                }
                if current.default.is_some() {
                    return Err(PolicyError::DuplicateDefault { annotation: item.text() });
                }
                current.default = Some(value.clone());
            },
            MetaItem::Path { path } => {
                if !text_is(path, "skip_inherit") {
                    return Err(PolicyError::Unrecognized { annotation: item.text() });
                }
                current.skip_inherit = true;
            },
            MetaItem::List { .. } => {
                return Err(PolicyError::Unrecognized { annotation: item.text() });
            },
        }
        j += 1;
    }
    Ok(current)
}

/// Reads the policy of one field from its annotations.
///
/// Annotations other than `config` are passed over. The `config` annotations
/// are read in order, entry by entry; the first that is malformed or refused
/// ends the reading with its error.
pub fn parse_field_config(attrs: &Vec<Attribute>) -> (r: Result<FieldConfig<String>, PolicyError>)
    ensures
        config_result_view(r) == field_config_of(attrs.deep_view()),
{
    let ghost all = attrs.deep_view();
    let mut config: FieldConfig<String> = FieldConfig::default();
    let mut i: usize = 0;
    assert(all.skip(0) =~= all);
    while i < attrs.len()
        invariant
            i <= attrs.len(),
            all == attrs.deep_view(),
            field_config_of(all) == apply_attributes(config.deep_view(), all.skip(i as int)),
        decreases attrs.len() - i,
    {
        let attr = &attrs[i];
        proof {
            assert(all.skip(i as int).skip(1) =~= all.skip(i + 1));
        }
        if text_is(&attr.path, "config") {
            match &attr.items {
                Err(reason) => {
                    return Err(PolicyError::Malformed { reason: reason.clone() });
                },
                Ok(items) => {
                    match apply_meta_items(config, items) {
                        Ok(next) => {
                            config = next;
                        },
                        Err(e) => {
                            return Err(e);
                        },
                    }
                },
            }
        }
        i += 1;
    }
    Ok(config)
}

/// What it means that a list of entries is accepted: every entry is one of
/// the two directives, `default` stands at most once and only where no
/// override was read before, and the policy that comes out holds exactly
/// what the entries say.
pub proof fn lemma_apply_items_accepted(
    config: FieldConfig<Seq<char>>,
    items: Seq<MetaItemView>,
    out: FieldConfig<Seq<char>>,
)
    requires
        apply_items(config, items) == Ok::<_, PolicyErrorView>(out),
    ensures
        forall|i: int|
            0 <= i < items.len() ==> is_default_entry(#[trigger] items[i]) || is_skip_entry(
                items[i],
            ),
        forall|i: int|
            0 <= i < items.len() && is_default_entry(#[trigger] items[i]) ==> config.default
                is None && out.default == Some(items[i]->value),
        forall|i: int, j: int|
            #![trigger items[i], items[j]]
            0 <= i < j < items.len() ==> !(is_default_entry(items[i]) && is_default_entry(
                items[j],
            )),
        (forall|i: int| 0 <= i < items.len() ==> !is_default_entry(#[trigger] items[i]))
            ==> out.default == config.default,
        out.skip_inherit <==> config.skip_inherit || exists|i: int|
            0 <= i < items.len() && is_skip_entry(#[trigger] items[i]),
    decreases items.len(),
{
    if items.len() > 0 {
        let rest = items.skip(1);
        let next = apply_item(config, items[0])->Ok_0;
        lemma_apply_items_accepted(next, rest, out);
        assert forall|i: int| 0 < i < items.len() implies #[trigger] items[i] == rest[i - 1] by {}
        assert forall|i: int| 0 <= i < rest.len() implies #[trigger] rest[i] == items[i + 1] by {}
        if is_default_entry(items[0]) {
            assert forall|i: int| 0 <= i < rest.len() implies !is_default_entry(
                #[trigger] rest[i],
            ) by {}
        }
        assert forall|i: int, j: int|
            #![trigger items[i], items[j]]
            0 <= i < j < items.len() implies !(is_default_entry(items[i]) && is_default_entry(
            items[j],
        )) by {
            if i > 0 {
                assert(items[i] == rest[i - 1] && items[j] == rest[j - 1]);
            } else if is_default_entry(items[0]) {
                assert(items[j] == rest[j - 1]);
            }
        }
        if forall|i: int| 0 <= i < items.len() ==> !is_default_entry(#[trigger] items[i]) {
            assert forall|i: int| 0 <= i < rest.len() implies !is_default_entry(
                #[trigger] rest[i],
            ) by {
                assert(rest[i] == items[i + 1]);
            }
        }
        if out.skip_inherit && !config.skip_inherit {
            if !is_skip_entry(items[0]) {
                let k = choose|k: int| 0 <= k < rest.len() && is_skip_entry(#[trigger] rest[k]);
                assert(is_skip_entry(items[k + 1]));
            }
        }
        if exists|i: int| 0 <= i < items.len() && is_skip_entry(#[trigger] items[i]) {
            let k = choose|k: int| 0 <= k < items.len() && is_skip_entry(#[trigger] items[k]);
            if k > 0 {
                assert(is_skip_entry(rest[k - 1]));
            }
        }
    }
}

/// Whether `i` is the place of an entry that is read: annotation `a` is a
/// `config` annotation with a well-formed argument list, and `i` lies in it.
pub open spec fn is_entry(attrs: Seq<AttributeView>, a: int, i: int) -> bool {
    &&& 0 <= a < attrs.len()
    &&& attrs[a].path == "config"@
    &&& attrs[a].items matches Ok(items) && 0 <= i < items.len()
}

/// The entry at a place.
pub open spec fn entry(attrs: Seq<AttributeView>, a: int, i: int) -> MetaItemView {
    attrs[a].items->Ok_0[i]
}

/// What it means that a field's annotations are accepted, starting from the
/// policy read so far: every `config` annotation has a well-formed argument
/// list, every entry is one of the two directives, `default` stands at most
/// once and only where no override was read before, and the policy that
/// comes out holds exactly what the entries say.
pub proof fn lemma_apply_attributes_accepted(
    config: FieldConfig<Seq<char>>,
    attrs: Seq<AttributeView>,
    out: FieldConfig<Seq<char>>,
)
    requires
        apply_attributes(config, attrs) == Ok::<_, PolicyErrorView>(out),
    ensures
        forall|a: int|
            0 <= a < attrs.len() && (#[trigger] attrs[a]).path == "config"@ ==> attrs[a].items
                is Ok,
        forall|a: int, i: int| #[trigger]
            is_entry(attrs, a, i) ==> is_default_entry(entry(attrs, a, i)) || is_skip_entry(
                entry(attrs, a, i),
            ),
        forall|a: int, i: int|
            #[trigger] is_entry(attrs, a, i) && is_default_entry(entry(attrs, a, i))
                ==> config.default is None && out.default == Some(entry(attrs, a, i)->value),
        forall|a: int, i: int, b: int, j: int|
            #![trigger is_entry(attrs, a, i), is_entry(attrs, b, j)]
            is_entry(attrs, a, i) && is_entry(attrs, b, j) && is_default_entry(entry(attrs, a, i))
                && is_default_entry(entry(attrs, b, j)) ==> a == b && i == j,
        (forall|a: int, i: int| #[trigger]
            is_entry(attrs, a, i) ==> !is_default_entry(entry(attrs, a, i))) ==> out.default
            == config.default,
        out.skip_inherit <==> config.skip_inherit || exists|a: int, i: int| #[trigger]
            is_entry(attrs, a, i) && is_skip_entry(entry(attrs, a, i)),
    decreases attrs.len(),
{
    if attrs.len() > 0 {
        let rest = attrs.skip(1);
        let next = apply_attribute(config, attrs[0])->Ok_0;
        lemma_apply_attributes_accepted(next, rest, out);
        let first_counts = attrs[0].path == "config"@;
        if first_counts {
            lemma_apply_items_accepted(config, attrs[0].items->Ok_0, next);
        }
        let items0 = attrs[0].items->Ok_0;
        // Places in the rest are the places after the first annotation.
        assert forall|a: int, i: int| 0 < a implies (is_entry(attrs, a, i) <==> is_entry(
            rest,
            a - 1,
            i,
        )) && (is_entry(attrs, a, i) ==> #[trigger] entry(attrs, a, i) == entry(rest, a - 1, i)) by {
            if 0 < a < attrs.len() {
                assert(attrs[a] == rest[a - 1]);
            }
        }
        assert forall|a: int, i: int| 0 <= a implies (is_entry(rest, a, i) <==> is_entry(
            attrs,
            a + 1,
            i,
        )) && (is_entry(rest, a, i) ==> #[trigger] entry(rest, a, i) == entry(attrs, a + 1, i)) by {
            if 0 <= a < rest.len() {
                assert(rest[a] == attrs[a + 1]);
            }
        }
        assert forall|a: int|
            0 <= a < attrs.len() && (#[trigger] attrs[a]).path == "config"@ implies attrs[a].items
            is Ok by {
            if a > 0 {
                assert(attrs[a] == rest[a - 1]);
            }
        }
        assert forall|a: int, i: int| #[trigger] is_entry(attrs, a, i) implies is_default_entry(
            entry(attrs, a, i),
        ) || is_skip_entry(entry(attrs, a, i)) by {
            if a > 0 {
                assert(is_entry(rest, a - 1, i));
                assert(entry(attrs, a, i) == entry(rest, a - 1, i));
            }
        }
        // Whether the first annotation holds a `default`.
        let first_sets = first_counts && exists|i: int|
            0 <= i < items0.len() && is_default_entry(#[trigger] items0[i]);
        if !first_sets {
            if first_counts {
                assert(forall|i: int| 0 <= i < items0.len() ==> !is_default_entry(#[trigger] items0[i]));
            }
            assert(next.default == config.default);
        } else {
            assert(next.default is Some);
            assert forall|b: int, j: int| #[trigger] is_entry(rest, b, j) implies !is_default_entry(
                entry(rest, b, j),
            ) by {}
            assert(out.default == next.default);
        }
        assert forall|a: int, i: int|
            #[trigger] is_entry(attrs, a, i) && is_default_entry(
                entry(attrs, a, i),
            ) implies config.default is None && out.default == Some(entry(attrs, a, i)->value) by {
            if a > 0 {
                assert(is_entry(rest, a - 1, i));
                assert(entry(attrs, a, i) == entry(rest, a - 1, i));
                assert(next.default is None);
                assert(!first_sets);
            } else {
                assert(entry(attrs, a, i) == items0[i]);
                assert(first_sets);
            }
        }
        assert forall|a: int, i: int, b: int, j: int|
            #![trigger is_entry(attrs, a, i), is_entry(attrs, b, j)]
            is_entry(attrs, a, i) && is_entry(attrs, b, j) && is_default_entry(entry(attrs, a, i))
                && is_default_entry(entry(attrs, b, j)) implies a == b && i == j by {
            if a > 0 {
                assert(is_entry(rest, a - 1, i));
                assert(entry(attrs, a, i) == entry(rest, a - 1, i));
            } else {
                assert(entry(attrs, a, i) == items0[i]);
            }
            if b > 0 {
                assert(is_entry(rest, b - 1, j));
                assert(entry(attrs, b, j) == entry(rest, b - 1, j));
            } else {
                assert(entry(attrs, b, j) == items0[j]);
            }
            if a == 0 && b == 0 {
                if i < j {
                    assert(!(is_default_entry(items0[i]) && is_default_entry(items0[j])));
                } else if j < i {
                    assert(!(is_default_entry(items0[j]) && is_default_entry(items0[i])));
                }
            } else if a == 0 || b == 0 {
                assert(first_sets);
                assert(next.default is Some);
            }
        }
        if forall|a: int, i: int| #[trigger]
            is_entry(attrs, a, i) ==> !is_default_entry(entry(attrs, a, i)) {
            assert forall|b: int, j: int| #[trigger] is_entry(rest, b, j) implies !is_default_entry(
                entry(rest, b, j),
            ) by {
                assert(is_entry(attrs, b + 1, j));
                assert(entry(rest, b, j) == entry(attrs, b + 1, j));
            }
            if first_counts {
                assert forall|i: int| 0 <= i < items0.len() implies !is_default_entry(
                    #[trigger] items0[i],
                ) by {
                    assert(is_entry(attrs, 0, i));
                    assert(entry(attrs, 0, i) == items0[i]);
                }
            }
        }
        if out.skip_inherit && !config.skip_inherit {
            if next.skip_inherit {
                let k = choose|k: int| 0 <= k < items0.len() && is_skip_entry(#[trigger] items0[k]);
                assert(is_entry(attrs, 0, k) && is_skip_entry(entry(attrs, 0, k)));
            } else {
                let (b, j) = choose|b: int, j: int| #[trigger]
                    is_entry(rest, b, j) && is_skip_entry(entry(rest, b, j));
                assert(is_entry(attrs, b + 1, j));
                assert(entry(rest, b, j) == entry(attrs, b + 1, j));
                assert(is_skip_entry(entry(attrs, b + 1, j)));
            }
        }
        if exists|a: int, i: int| #[trigger]
            is_entry(attrs, a, i) && is_skip_entry(entry(attrs, a, i)) {
            let (a, i) = choose|a: int, i: int| #[trigger]
                is_entry(attrs, a, i) && is_skip_entry(entry(attrs, a, i));
            if a > 0 {
                assert(is_entry(rest, a - 1, i));
                assert(entry(attrs, a, i) == entry(rest, a - 1, i));
            } else {
                assert(entry(attrs, a, i) == items0[i]);
                assert(next.skip_inherit);
            }
        }
    } else {
        assert forall|a: int, i: int| !is_entry(attrs, a, i) by {}
    }
}

/// A list of entries is accepted where every entry is one of the two
/// directives and `default` stands at most once, and not at all where an
/// override was read before.
pub proof fn lemma_apply_items_accepts(config: FieldConfig<Seq<char>>, items: Seq<MetaItemView>)
    requires
        forall|i: int|
            0 <= i < items.len() ==> is_default_entry(#[trigger] items[i]) || is_skip_entry(
                items[i],
            ),
        forall|i: int, j: int|
            #![trigger items[i], items[j]]
            0 <= i < j < items.len() ==> !(is_default_entry(items[i]) && is_default_entry(
                items[j],
            )),
        config.default is Some ==> forall|i: int|
            0 <= i < items.len() ==> !is_default_entry(#[trigger] items[i]),
    ensures
        apply_items(config, items) is Ok,
    decreases items.len(),
{
    if items.len() > 0 {
        let rest = items.skip(1);
        let next = apply_item(config, items[0])->Ok_0;
        assert(is_default_entry(items[0]) || is_skip_entry(items[0]));
        assert forall|i: int| 0 <= i < rest.len() implies #[trigger] rest[i] == items[i + 1] by {}
        assert forall|i: int, j: int|
            #![trigger rest[i], rest[j]]
            0 <= i < j < rest.len() implies !(is_default_entry(rest[i]) && is_default_entry(
            rest[j],
        )) by {
            assert(rest[i] == items[i + 1] && rest[j] == items[j + 1]);
        }
        if next.default is Some {
            assert forall|i: int| 0 <= i < rest.len() implies !is_default_entry(
                #[trigger] rest[i],
            ) by {
                assert(rest[i] == items[i + 1]);
                if is_default_entry(items[0]) {
                    assert(!(is_default_entry(items[0]) && is_default_entry(items[i + 1])));
                }
            }
        }
        lemma_apply_items_accepts(next, rest);
    }
}

/// A field's annotations are accepted where every `config` annotation has a
/// well-formed argument list, every entry is one of the two directives, and
/// `default` stands at most once, and not at all where an override was read
/// before.
pub proof fn lemma_apply_attributes_accepts(
    config: FieldConfig<Seq<char>>,
    attrs: Seq<AttributeView>,
)
    requires
        forall|a: int|
            0 <= a < attrs.len() && (#[trigger] attrs[a]).path == "config"@ ==> attrs[a].items
                is Ok,
        forall|a: int, i: int| #[trigger]
            is_entry(attrs, a, i) ==> is_default_entry(entry(attrs, a, i)) || is_skip_entry(
                entry(attrs, a, i),
            ),
        forall|a: int, i: int, b: int, j: int|
            #![trigger is_entry(attrs, a, i), is_entry(attrs, b, j)]
            is_entry(attrs, a, i) && is_entry(attrs, b, j) && is_default_entry(entry(attrs, a, i))
                && is_default_entry(entry(attrs, b, j)) ==> a == b && i == j,
        config.default is Some ==> forall|a: int, i: int| #[trigger]
            is_entry(attrs, a, i) ==> !is_default_entry(entry(attrs, a, i)),
    ensures
        apply_attributes(config, attrs) is Ok,
    decreases attrs.len(),
{
    if attrs.len() > 0 {
        let rest = attrs.skip(1);
        let first_counts = attrs[0].path == "config"@;
        let items0 = attrs[0].items->Ok_0;
        assert forall|a: int, i: int| 0 <= a implies (is_entry(rest, a, i) <==> is_entry(
            attrs,
            a + 1,
            i,
        )) && (is_entry(rest, a, i) ==> #[trigger] entry(rest, a, i) == entry(attrs, a + 1, i)) by {
            if 0 <= a < rest.len() {
                assert(rest[a] == attrs[a + 1]);
            }
        }
        if first_counts {
            assert(attrs[0].items is Ok);
            assert forall|i: int| 0 <= i < items0.len() implies is_default_entry(
                #[trigger] items0[i],
            ) || is_skip_entry(items0[i]) by {
                assert(is_entry(attrs, 0, i));
                assert(entry(attrs, 0, i) == items0[i]);
            }
            assert forall|i: int, j: int|
                #![trigger items0[i], items0[j]]
                0 <= i < j < items0.len() implies !(is_default_entry(items0[i])
                && is_default_entry(items0[j])) by {
                assert(is_entry(attrs, 0, i) && is_entry(attrs, 0, j));
                assert(entry(attrs, 0, i) == items0[i] && entry(attrs, 0, j) == items0[j]);
            }
            if config.default is Some {
                assert forall|i: int| 0 <= i < items0.len() implies !is_default_entry(
                    #[trigger] items0[i],
                ) by {
                    assert(is_entry(attrs, 0, i));
                    assert(entry(attrs, 0, i) == items0[i]);
                }
            }
            lemma_apply_items_accepts(config, items0);
            lemma_apply_items_accepted(config, items0, apply_items(config, items0)->Ok_0);
        }
        let next = apply_attribute(config, attrs[0])->Ok_0;
        assert forall|a: int|
            0 <= a < rest.len() && (#[trigger] rest[a]).path == "config"@ implies rest[a].items
            is Ok by {
            assert(rest[a] == attrs[a + 1]);
        }
        assert forall|a: int, i: int| #[trigger] is_entry(rest, a, i) implies is_default_entry(
            entry(rest, a, i),
        ) || is_skip_entry(entry(rest, a, i)) by {
            assert(is_entry(attrs, a + 1, i));
            assert(entry(rest, a, i) == entry(attrs, a + 1, i));
        }
        assert forall|a: int, i: int, b: int, j: int|
            #![trigger is_entry(rest, a, i), is_entry(rest, b, j)]
            is_entry(rest, a, i) && is_entry(rest, b, j) && is_default_entry(entry(rest, a, i))
                && is_default_entry(entry(rest, b, j)) implies a == b && i == j by {
            assert(is_entry(attrs, a + 1, i) && is_entry(attrs, b + 1, j));
            assert(entry(rest, a, i) == entry(attrs, a + 1, i));
            assert(entry(rest, b, j) == entry(attrs, b + 1, j));
        }
        if next.default is Some {
            assert forall|a: int, i: int| #[trigger] is_entry(rest, a, i) implies !is_default_entry(
                entry(rest, a, i),
            ) by {
                assert(is_entry(attrs, a + 1, i));
                assert(entry(rest, a, i) == entry(attrs, a + 1, i));
                if config.default is None {
                    assert(first_counts);
                    let k = choose|k: int|
                        0 <= k < items0.len() && is_default_entry(#[trigger] items0[k]);
                    assert(is_entry(attrs, 0, k));
                    assert(entry(attrs, 0, k) == items0[k]);
                }
            }
        }
        lemma_apply_attributes_accepts(next, rest);
    }
}

/// The policy of a field is read exactly where every `config` annotation has
/// a well-formed argument list, every entry is `default = <expr>` or
/// `skip_inherit`, and `default` stands at most once. It then holds the
/// override of that one `default`, and takes the field out of merging
/// exactly where `skip_inherit` stands.
pub proof fn lemma_field_config_accepted(attrs: Seq<AttributeView>)
    ensures
        field_config_of(attrs) is Ok <==> {
            &&& forall|a: int|
                0 <= a < attrs.len() && (#[trigger] attrs[a]).path == "config"@
                    ==> attrs[a].items is Ok
            &&& forall|a: int, i: int| #[trigger]
                is_entry(attrs, a, i) ==> is_default_entry(entry(attrs, a, i)) || is_skip_entry(
                    entry(attrs, a, i),
                )
            &&& forall|a: int, i: int, b: int, j: int|
                #![trigger is_entry(attrs, a, i), is_entry(attrs, b, j)]
                is_entry(attrs, a, i) && is_entry(attrs, b, j) && is_default_entry(
                    entry(attrs, a, i),
                ) && is_default_entry(entry(attrs, b, j)) ==> a == b && i == j
        },
        field_config_of(attrs) matches Ok(out) ==> {
            &&& forall|a: int, i: int|
                #[trigger] is_entry(attrs, a, i) && is_default_entry(entry(attrs, a, i))
                    ==> out.default == Some(entry(attrs, a, i)->value)
            &&& out.default is Some <==> exists|a: int, i: int| #[trigger]
                is_entry(attrs, a, i) && is_default_entry(entry(attrs, a, i))
            &&& out.skip_inherit <==> exists|a: int, i: int| #[trigger]
                is_entry(attrs, a, i) && is_skip_entry(entry(attrs, a, i))
        },
{
    let start = FieldConfig::<Seq<char>> { default: None, skip_inherit: false };
    match field_config_of(attrs) {
        Ok(out) => {
            lemma_apply_attributes_accepted(start, attrs, out);
        },
        Err(_) => {
            if {
                &&& forall|a: int|
                    0 <= a < attrs.len() && (#[trigger] attrs[a]).path == "config"@
                        ==> attrs[a].items is Ok
                &&& forall|a: int, i: int| #[trigger]
                    is_entry(attrs, a, i) ==> is_default_entry(entry(attrs, a, i))
                        || is_skip_entry(entry(attrs, a, i))
                &&& forall|a: int, i: int, b: int, j: int|
                    #![trigger is_entry(attrs, a, i), is_entry(attrs, b, j)]
                    is_entry(attrs, a, i) && is_entry(attrs, b, j) && is_default_entry(
                        entry(attrs, a, i),
                    ) && is_default_entry(entry(attrs, b, j)) ==> a == b && i == j
            } {
                lemma_apply_attributes_accepts(start, attrs);
            }
        },
    }
}

/// A field with two `default = ...` entries has no policy.
pub proof fn lemma_duplicate_default_refused(
    attrs: Seq<AttributeView>,
    a: int,
    i: int,
    b: int,
    j: int,
)
    requires
        is_entry(attrs, a, i),
        is_entry(attrs, b, j),
        is_default_entry(entry(attrs, a, i)),
        is_default_entry(entry(attrs, b, j)),
        a != b || i != j,
    ensures
        field_config_of(attrs) is Err,
{
    lemma_field_config_accepted(attrs);
}

/// A field with an entry that is neither `default = ...` nor `skip_inherit`
/// has no policy.
pub proof fn lemma_unrecognized_refused(attrs: Seq<AttributeView>, a: int, i: int)
    requires
        is_entry(attrs, a, i),
        !is_default_entry(entry(attrs, a, i)),
        !is_skip_entry(entry(attrs, a, i)),
    ensures
        field_config_of(attrs) is Err,
{
    lemma_field_config_accepted(attrs);
}

/// A field with a `config` annotation that has no well-formed argument list
/// has no policy.
pub proof fn lemma_malformed_refused(attrs: Seq<AttributeView>, a: int)
    requires
        0 <= a < attrs.len(),
        attrs[a].path == "config"@,
        attrs[a].items is Err,
    ensures
        field_config_of(attrs) is Err,
{
    lemma_field_config_accepted(attrs);
}

} // verus!
