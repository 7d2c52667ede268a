//! The attribute grammar read by the options and command derives, over plain
//! values: which attribute of a field or variant sets what, and how types,
//! defaults and doc comments are shown in the generated documentation.
//!
//! Attributes that are only forwarded are referred to by their position in
//! the item's attribute list.
use crate::naming::{
    effective_cli_name, field_name_for, field_name_for_error, partial_type_for, spec_to_snake_case, normalize_token_string, spec_field_name_for_error, spec_normalize_token_string,
};
use crate::options::rules::OptionRule;
use crate::text::{join, owned, replace_char, spec_join, spec_lowercase, spec_replace_char, views_of};
use vstd::prelude::*;
use vstd::string::StringExecFns;

verus! {

/// One entry of a field's `#[options(...)]` attribute.
#[derive(Clone, Debug)]
pub enum FieldOption {
    /// `default = <expr>`, with the expression's token text.
    Default(String),
    /// `default_fn = <path>`, with the path's token text.
    DefaultFn(String),
    /// `default_doc = "<text>"`.
    DefaultDoc(String),
    /// `required`.
    Required,
    /// Anything else, which is ignored.
    Other,
}

/// Model of a [`FieldOption`].
pub enum FieldOptionView {
    Default(Seq<char>),
    DefaultFn(Seq<char>),
    DefaultDoc(Seq<char>),
    Required,
    Other,
}

impl View for FieldOption {
    type V = FieldOptionView;

    open spec fn view(&self) -> FieldOptionView {
        match self {
            FieldOption::Default(e) => FieldOptionView::Default(e@),
            FieldOption::DefaultFn(p) => FieldOptionView::DefaultFn(p@),
            FieldOption::DefaultDoc(d) => FieldOptionView::DefaultDoc(d@),
            FieldOption::Required => FieldOptionView::Required,
            FieldOption::Other => FieldOptionView::Other,
        }
    }
}

/// One attribute of a struct field, by the identifier of its path.
#[derive(Clone, Debug)]
pub enum FieldAttr {
    /// `#[options(...)]`, with its entries in order.
    Options(Vec<FieldOption>),
    /// `#[arg(...)]`, forwarded to the generated partial struct.
    Arg,
    /// `#[serde(...)]`, forwarded to the generated partial struct.
    Serde,
    /// A doc comment.
    Doc,
    /// Any other attribute, which is ignored.
    Other,
    /// An `#[options(...)]` attribute that does not parse.
    Malformed,
}

/// Model of a [`FieldAttr`].
pub enum FieldAttrView {
    Options(Seq<FieldOptionView>),
    Arg,
    Serde,
    Doc,
    Other,
    Malformed,
}

/// Models of a sequence of field options.
pub open spec fn options_view(v: Seq<FieldOption>) -> Seq<FieldOptionView> {
    Seq::new(v.len(), |i: int| v[i]@)
}

impl View for FieldAttr {
    type V = FieldAttrView;

    open spec fn view(&self) -> FieldAttrView {
        match self {
            FieldAttr::Options(o) => FieldAttrView::Options(options_view(o@)),
            FieldAttr::Arg => FieldAttrView::Arg,
            FieldAttr::Serde => FieldAttrView::Serde,
            FieldAttr::Doc => FieldAttrView::Doc,
            FieldAttr::Other => FieldAttrView::Other,
            FieldAttr::Malformed => FieldAttrView::Malformed,
        }
    }
}

/// What the options derive reads from a struct field.
#[derive(Clone, Debug)]
pub struct ParsedField {
    /// Field name.
    pub ident: String,
    /// Whether the field type is `Option<T>`.
    pub is_option: bool,
    /// Whether the field type is `bool`.
    pub is_bool: bool,
    /// Whether the field is marked `#[options(required)]`.
    pub is_required: bool,
    /// Token text of the static default from `#[options(default = ...)]`.
    pub default_value: Option<String>,
    /// Token text of the function from `#[options(default_fn = ...)]`.
    pub default_fn: Option<String>,
    /// Documentation of a computed default from `#[options(default_doc = ...)]`.
    pub default_doc: Option<String>,
    /// Positions of the forwarded `#[arg(...)]` attributes.
    pub arg_attrs: Vec<usize>,
    /// Positions of the forwarded `#[serde(...)]` attributes.
    pub serde_attrs: Vec<usize>,
    /// Positions of the doc comment attributes.
    pub doc_attrs: Vec<usize>,
}

/// Model of a [`ParsedField`] without its name.
pub struct FieldModel {
    pub is_option: bool,
    pub is_bool: bool,
    pub is_required: bool,
    pub default_value: Option<Seq<char>>,
    pub default_fn: Option<Seq<char>>,
    pub default_doc: Option<Seq<char>>,
    pub arg_attrs: Seq<usize>,
    pub serde_attrs: Seq<usize>,
    pub doc_attrs: Seq<usize>,
}

/// Character sequences of an optional string.
pub open spec fn opt_view(o: Option<String>) -> Option<Seq<char>> {
    match o {
        Some(s) => Some(s@),
        None => None,
    }
}

impl View for ParsedField {
    type V = FieldModel;

    open spec fn view(&self) -> FieldModel {
        FieldModel {
            is_option: self.is_option,
            is_bool: self.is_bool,
            is_required: self.is_required,
            default_value: opt_view(self.default_value),
            default_fn: opt_view(self.default_fn),
            default_doc: opt_view(self.default_doc),
            arg_attrs: self.arg_attrs@,
            serde_attrs: self.serde_attrs@,
            doc_attrs: self.doc_attrs@,
        }
    }
}

/// Whether the last segment of a type's path is `name`; `false` for a type
/// that is not a path.
pub open spec fn spec_is_named(last_segment: Option<Seq<char>>, name: Seq<char>) -> bool {
    match last_segment {
        Some(s) => s == name,
        None => false,
    }
}

/// The field before any attribute is read.
pub open spec fn initial_field(last_segment: Option<Seq<char>>) -> FieldModel {
    FieldModel {
        is_option: spec_is_named(last_segment, "Option"@),
        is_bool: spec_is_named(last_segment, "bool"@),
        is_required: false,
        default_value: None,
        default_fn: None,
        default_doc: None,
        arg_attrs: Seq::empty(),
        serde_attrs: Seq::empty(),
        doc_attrs: Seq::empty(),
    }
}

/// The field after one entry of `#[options(...)]`: a later entry of the same
/// name replaces an earlier one.
pub open spec fn apply_option(m: FieldModel, o: FieldOptionView) -> FieldModel {
    match o {
        FieldOptionView::Default(e) => FieldModel { default_value: Some(e), ..m },
        FieldOptionView::DefaultFn(p) => FieldModel { default_fn: Some(p), ..m },
        FieldOptionView::DefaultDoc(d) => FieldModel { default_doc: Some(d), ..m },
        FieldOptionView::Required => FieldModel { is_required: true, ..m },
        FieldOptionView::Other => m,
    }
}

/// The field after the entries `opts` of one `#[options(...)]`, in order.
pub open spec fn apply_options(m: FieldModel, opts: Seq<FieldOptionView>) -> FieldModel
    decreases opts.len(),
{
    if opts.len() == 0 {
        m
    } else {
        apply_option(apply_options(m, opts.drop_last()), opts.last())
    }
}

/// The field after its attribute at position `index`.
pub open spec fn apply_attr(m: FieldModel, attr: FieldAttrView, index: usize) -> FieldModel {
    match attr {
        FieldAttrView::Options(opts) => apply_options(m, opts),
        FieldAttrView::Arg => FieldModel { arg_attrs: m.arg_attrs.push(index), ..m },
        FieldAttrView::Serde => FieldModel { serde_attrs: m.serde_attrs.push(index), ..m },
        FieldAttrView::Doc => FieldModel { doc_attrs: m.doc_attrs.push(index), ..m },
        FieldAttrView::Other => m,
        FieldAttrView::Malformed => m,
    }
}

/// The field after reading `attrs`, the attribute at position `i` of the
/// list being `attrs[i]`.
pub open spec fn apply_attrs(m: FieldModel, attrs: Seq<FieldAttrView>) -> FieldModel
    decreases attrs.len(),
{
    if attrs.len() == 0 {
        m
    } else {
        apply_attr(apply_attrs(m, attrs.drop_last()), attrs.last(), (attrs.len() - 1) as usize)
    }
}

/// Models of a sequence of field attributes.
pub open spec fn attrs_view(v: Seq<FieldAttr>) -> Seq<FieldAttrView> {
    Seq::new(v.len(), |i: int| v[i]@)
}

/// The field read from its type's last path segment and its attributes.
pub open spec fn spec_parse_field(last_segment: Option<Seq<char>>, attrs: Seq<FieldAttrView>) -> FieldModel {
    apply_attrs(initial_field(last_segment), attrs)
}

fn str_eq(a: &str, b: &str) -> (res: bool)
    ensures
        res == (a@ == b@),
{
    crate::torrent::indexer::str_eq(a, b)
}

fn is_named(last_segment: Option<&str>, name: &str) -> (res: bool)
    ensures
        res == spec_is_named(
            match last_segment {
                Some(s) => Some(s@),
                None => None,
            },
            name@,
        ),
{
    match last_segment {
        Some(s) => str_eq(s, name),
        None => false,
    }
}

fn apply_options_exec(field: &mut ParsedField, opts: &Vec<FieldOption>)
    ensures
        final(field).ident == old(field).ident,
        final(field)@ == apply_options(old(field)@, options_view(opts@)),
{
    let ghost start = field@;
    let mut i: usize = 0;
    while i < opts.len()
        invariant
            i <= opts@.len(),
            field.ident == old(field).ident,
            start == old(field)@,
            field@ == apply_options(start, options_view(opts@).take(i as int)),
        decreases opts@.len() - i,
    {
        match &opts[i] {
            FieldOption::Default(e) => {
                field.default_value = Some(e.clone());
            },
            FieldOption::DefaultFn(p) => {
                field.default_fn = Some(p.clone());
            },
            FieldOption::DefaultDoc(d) => {
                field.default_doc = Some(d.clone());
            },
            FieldOption::Required => {
                field.is_required = true;
            },
            FieldOption::Other => {},
        }
        proof {
            let o = options_view(opts@);
            assert(o.take(i + 1).drop_last() =~= o.take(i as int));
            assert(o.take(i + 1).last() == opts@[i as int]@);
        }
        i = i + 1;
    }
    assert(options_view(opts@).take(opts@.len() as int) =~= options_view(opts@));
}

/// Why a struct field cannot be read.
#[derive(Clone, Copy, Debug, PartialEq, Eq, Structural)]
pub enum FieldError {
    /// The field has no name.
    Unnamed,
    /// The `#[options(...)]` attribute at this position does not parse.
    MalformedOptions(usize),
}

/// Read a struct field: its name (`None` for a field without one), the
/// last segment of its type's path (`None` for a type that is not a path)
/// and its attributes in order.
///
/// - A field without a name is an error, and so, after that, is the first
///   `#[options(...)]` attribute that does not parse
/// - `Option` and `bool` types are recognised by the last path segment
/// - `#[options(...)]` entries set the default, default function, default
///   documentation and requiredness, later entries replacing earlier ones
/// - `#[arg(...)]`, `#[serde(...)]` and doc comments are collected for
///   forwarding; other attributes are ignored
pub fn parse_field(ident: Option<&str>, last_segment: Option<&str>, attrs: &Vec<FieldAttr>) -> (res: Result<ParsedField, FieldError>)
    ensures
        ident is None ==> res == Err::<ParsedField, FieldError>(FieldError::Unnamed),
        ident matches Some(name) ==> match res {
            Ok(field) => {
                &&& forall|j: int| 0 <= j < attrs@.len() ==> !(#[trigger] attrs@[j] is Malformed)
                &&& field.ident@ == name@
                &&& field@ == spec_parse_field(
                    match last_segment {
                        Some(s) => Some(s@),
                        None => None,
                    },
                    attrs_view(attrs@),
                )
            },
            Err(FieldError::MalformedOptions(k)) => {
                &&& k < attrs@.len()
                &&& attrs@[k as int] is Malformed
                &&& forall|j: int| 0 <= j < k ==> !(#[trigger] attrs@[j] is Malformed)
            },
            Err(FieldError::Unnamed) => false,
        },
{
    let name = match ident {
        Some(n) => n,
        None => {
            return Err(FieldError::Unnamed);
        },
    };
    let mut field = ParsedField {
        ident: owned(name),
        is_option: is_named(last_segment, "Option"),
        is_bool: is_named(last_segment, "bool"),
        is_required: false,
        default_value: None,
        default_fn: None,
        default_doc: None,
        arg_attrs: Vec::new(),
        serde_attrs: Vec::new(),
        doc_attrs: Vec::new(),
    };
    proof {
        reveal_strlit("Option");
        reveal_strlit("bool");
    }
    let ghost start = field@;
    assert(start.arg_attrs =~= Seq::<usize>::empty());
    assert(start.serde_attrs =~= Seq::<usize>::empty());
    assert(start.doc_attrs =~= Seq::<usize>::empty());
    let mut i: usize = 0;
    while i < attrs.len()
        invariant
            i <= attrs@.len(),
            ident == Some(name),
            field.ident@ == name@,
            start == initial_field(
                match last_segment {
                    Some(s) => Some(s@),
                    None => None,
                },
            ),
            field@ == apply_attrs(start, attrs_view(attrs@).take(i as int)),
            forall|j: int| 0 <= j < i ==> !(#[trigger] attrs@[j] is Malformed),
        decreases attrs@.len() - i,
    {
        let ghost before = field@;
        match &attrs[i] {
            FieldAttr::Options(opts) => {
                apply_options_exec(&mut field, opts);
            },
            FieldAttr::Arg => {
                field.arg_attrs.push(i);
            },
            FieldAttr::Serde => {
                field.serde_attrs.push(i);
            },
            FieldAttr::Doc => {
                field.doc_attrs.push(i);
            },
            FieldAttr::Other => {},
            FieldAttr::Malformed => {
                return Err(FieldError::MalformedOptions(i));
            },
        }
        proof {
            let a = attrs_view(attrs@);
            assert(a.take(i + 1).drop_last() =~= a.take(i as int));
            assert(a.take(i + 1).last() == attrs@[i as int]@);
            assert(field@ == apply_attr(before, attrs@[i as int]@, i));
        }
        i = i + 1;
    }
    assert(attrs_view(attrs@).take(attrs@.len() as int) =~= attrs_view(attrs@));
    Ok(field)
}

/// Name for what `str::trim` returns for a string.
pub uninterp spec fn spec_trim(s: Seq<char>) -> Seq<char>;

/// `s` without leading and trailing whitespace.
///
/// Trusted: calls `str::trim`; claims only that the result is the named
/// function of the argument.
#[verifier::external_body]
fn trim(s: &str) -> (res: String)
    ensures
        res@ == spec_trim(s@),
{
    s.trim().to_owned()
}

/// The trimmed, non-empty lines of doc comments, in order; doc attributes
/// that are not a string literal (`None`) are skipped.
pub open spec fn doc_lines(docs: Seq<Option<Seq<char>>>) -> Seq<Seq<char>>
    decreases docs.len(),
{
    if docs.len() == 0 {
        Seq::empty()
    } else {
        let rest = doc_lines(docs.drop_last());
        match docs.last() {
            Some(text) => if spec_trim(text).len() > 0 {
                rest.push(spec_trim(text))
            } else {
                rest
            },
            None => rest,
        }
    }
}

/// Character sequences of optional strings.
pub open spec fn opt_views(v: Seq<Option<String>>) -> Seq<Option<Seq<char>>> {
    Seq::new(v.len(), |i: int| opt_view(v[i]))
}

/// The text of doc comments: each line trimmed, empty lines dropped, the
/// rest joined with `sep` (`"<br>"` in option documentation, a newline in
/// command help).
pub fn doc_string(docs: &Vec<Option<String>>, sep: &str) -> (res: String)
    ensures
        res@ == spec_join(doc_lines(opt_views(docs@)), sep@),
{
    let mut lines: Vec<String> = Vec::new();
    let mut i: usize = 0;
    while i < docs.len()
        invariant
            i <= docs@.len(),
            views_of(lines@) == doc_lines(opt_views(docs@).take(i as int)),
        decreases docs@.len() - i,
    {
        let ghost before = views_of(lines@);
        proof {
            let d = opt_views(docs@);
            assert(d.take(i + 1).drop_last() =~= d.take(i as int));
            assert(d.take(i + 1).last() == opt_view(docs@[i as int]));
        }
        match &docs[i] {
            Some(text) => {
                let t = trim(text.as_str());
                if t.as_str().is_empty() == false {
                    lines.push(t);
                    assert(views_of(lines@) =~= before.push(spec_trim(text@)));
                }
            },
            None => {},
        }
        i = i + 1;
    }
    assert(opt_views(docs@).take(docs@.len() as int) =~= opt_views(docs@));
    join(&lines, sep)
}

/// The shape of a field's type, as far as its documentation shows it.
#[derive(Debug)]
pub enum TypeShape {
    /// A path type: the identifier of its last segment, and its first
    /// generic argument when that is a type.
    Path(String, Option<Box<TypeShape>>),
    /// Any other type, or a path without segments: its token text.
    Tokens(String),
}

/// How a type is shown in option documentation: `Option<T>` and `Vec<T>`
/// with their argument shown the same way, another path by its last
/// segment, anything else by its tokens.
pub open spec fn spec_type_display(t: TypeShape) -> Seq<char>
    decreases t,
{
    match t {
        TypeShape::Path(ident, Some(inner)) => if ident@ == "Option"@ {
            "Option<"@ + spec_type_display(*inner) + ">"@
        } else if ident@ == "Vec"@ {
            "Vec<"@ + spec_type_display(*inner) + ">"@
        } else {
            ident@
        },
        TypeShape::Path(ident, None) => ident@,
        TypeShape::Tokens(tokens) => tokens@,
    }
}

/// Convert a type to a display string for documentation.
pub fn type_display(t: &TypeShape) -> (res: String)
    ensures
        res@ == spec_type_display(*t),
    decreases t,
{
    match t {
        TypeShape::Path(ident, Some(inner)) => {
            if str_eq(ident.as_str(), "Option") {
                let mut s = owned("Option<");
                let shown = type_display(&**inner);
                s.append(shown.as_str());
                s.append(">");
                s
            } else if str_eq(ident.as_str(), "Vec") {
                let mut s = owned("Vec<");
                let shown = type_display(&**inner);
                s.append(shown.as_str());
                s.append(">");
                s
            } else {
                ident.clone()
            }
        },
        TypeShape::Path(ident, None) => ident.clone(),
        TypeShape::Tokens(tokens) => tokens.clone(),
    }
}

/// The default shown in option documentation: the static default's
/// normalized token text, else the default's documentation, else `false`
/// for a `bool` field, else nothing.
pub open spec fn spec_field_default_text(f: FieldModel) -> Option<Seq<char>> {
    match f.default_value {
        Some(tokens) => Some(spec_normalize_token_string(tokens)),
        None => match f.default_doc {
            Some(doc) => Some(doc),
            None => if f.is_bool {
                Some("false"@)
            } else {
                None
            },
        },
    }
}

/// How the serialized default of a field is computed in documentation.
#[derive(Clone, Copy, Debug, PartialEq, Eq, Structural)]
pub enum DefaultValueSource {
    /// Serialize the static default expression.
    Expression,
    /// The literal `false` of a `bool` field.
    False,
    /// Serialize the `Default` value of the field's type.
    TypeDefault,
    /// An optional field without a default has none.
    Absent,
}

/// Where the serialized default comes from: the static default, else
/// `false` for `bool`, else the type's `Default` for a field that is not
/// optional, else none.
pub open spec fn spec_default_value_source(f: FieldModel) -> DefaultValueSource {
    if f.default_value is Some {
        DefaultValueSource::Expression
    } else if f.is_bool {
        DefaultValueSource::False
    } else if !f.is_option {
        DefaultValueSource::TypeDefault
    } else {
        DefaultValueSource::Absent
    }
}

impl ParsedField {
    /// Convert the field's default value to a string for documentation.
    pub fn default_text(&self) -> (res: Option<String>)
        ensures
            opt_view(res) == spec_field_default_text(self@),
    {
        match &self.default_value {
            Some(tokens) => Some(normalize_token_string(tokens.as_str())),
            None => match &self.default_doc {
                Some(doc) => Some(doc.clone()),
                None => if self.is_bool {
                    Some(owned("false"))
                } else {
                    None
                },
            },
        }
    }

    /// Where the serialized default shown in documentation comes from.
    pub fn default_value_source(&self) -> (res: DefaultValueSource)
        ensures
            res == spec_default_value_source(self@),
    {
        if self.default_value.is_some() {
            DefaultValueSource::Expression
        } else if self.is_bool {
            DefaultValueSource::False
        } else if !self.is_option {
            DefaultValueSource::TypeDefault
        } else {
            DefaultValueSource::Absent
        }
    }
}

/// The name of the generated partial struct: the name given by
/// `#[options(partial = "...")]`, else the struct's name with `Partial`
/// appended.
pub fn get_partial_name(partial_name: &Option<String>, struct_name: &str) -> (res: String)
    ensures
        res@ == (match partial_name {
            Some(n) => n@,
            None => struct_name@ + "Partial"@,
        }),
{
    match partial_name {
        Some(n) => n.clone(),
        None => {
            let mut s = owned(struct_name);
            s.append("Partial");
            s
        },
    }
}

/// One attribute of a command enum variant, by the identifier of its path.
#[derive(Clone, Debug)]
pub enum VariantAttr {
    /// A doc comment, forwarded.
    Doc,
    /// `#[options(A, B)]`: the option type names listed.
    Options(Vec<String>),
    /// `#[cli_name = "..."]`: the name when it is a string literal.
    CliName(Option<String>),
    /// `#[command(...)]`, forwarded to clap.
    Command,
    /// Any other attribute, which is ignored.
    Other,
}

/// What the command derive reads from an enum variant.
#[derive(Clone, Debug)]
pub struct ParsedVariant {
    /// Positions of the doc comment attributes.
    pub doc_attrs: Vec<usize>,
    /// Option type names from `#[options(...)]`, in order.
    pub options: Vec<String>,
    /// CLI name override from `#[cli_name = "..."]`.
    pub cli_name: Option<String>,
    /// Positions of the `#[command(...)]` attributes.
    pub command_attrs: Vec<usize>,
    /// Variant name.
    pub name: String,
    /// The wrapped sub-enum of a variant such as `Queue(QueueCommand)`.
    pub sub_enum: Option<String>,
}

/// Model of a [`ParsedVariant`].
pub struct VariantModel {
    pub doc_attrs: Seq<usize>,
    pub options: Seq<Seq<char>>,
    pub cli_name: Option<Seq<char>>,
    pub command_attrs: Seq<usize>,
    pub name: Seq<char>,
    pub sub_enum: Option<Seq<char>>,
}

impl View for ParsedVariant {
    type V = VariantModel;

    open spec fn view(&self) -> VariantModel {
        VariantModel {
            doc_attrs: self.doc_attrs@,
            options: views_of(self.options@),
            cli_name: opt_view(self.cli_name),
            command_attrs: self.command_attrs@,
            name: self.name@,
            sub_enum: opt_view(self.sub_enum),
        }
    }
}

/// Model of a [`VariantAttr`].
pub enum VariantAttrView {
    Doc,
    Options(Seq<Seq<char>>),
    CliName(Option<Seq<char>>),
    Command,
    Other,
}

impl View for VariantAttr {
    type V = VariantAttrView;

    open spec fn view(&self) -> VariantAttrView {
        match self {
            VariantAttr::Doc => VariantAttrView::Doc,
            VariantAttr::Options(names) => VariantAttrView::Options(views_of(names@)),
            VariantAttr::CliName(n) => VariantAttrView::CliName(opt_view(*n)),
            VariantAttr::Command => VariantAttrView::Command,
            VariantAttr::Other => VariantAttrView::Other,
        }
    }
}

/// The variant after its attribute at position `index`: option names
/// accumulate, a later string `cli_name` replaces an earlier one.
pub open spec fn apply_variant_attr(m: VariantModel, attr: VariantAttrView, index: usize) -> VariantModel {
    match attr {
        VariantAttrView::Doc => VariantModel { doc_attrs: m.doc_attrs.push(index), ..m },
        VariantAttrView::Options(names) => VariantModel { options: m.options + names, ..m },
        VariantAttrView::CliName(Some(n)) => VariantModel { cli_name: Some(n), ..m },
        VariantAttrView::CliName(None) => m,
        VariantAttrView::Command => VariantModel { command_attrs: m.command_attrs.push(index), ..m },
        VariantAttrView::Other => m,
    }
}

/// The variant after reading `attrs` in order.
pub open spec fn apply_variant_attrs(m: VariantModel, attrs: Seq<VariantAttrView>) -> VariantModel
    decreases attrs.len(),
{
    if attrs.len() == 0 {
        m
    } else {
        apply_variant_attr(
            apply_variant_attrs(m, attrs.drop_last()),
            attrs.last(),
            (attrs.len() - 1) as usize,
        )
    }
}

/// Models of a sequence of variant attributes.
pub open spec fn variant_attrs_view(v: Seq<VariantAttr>) -> Seq<VariantAttrView> {
    Seq::new(v.len(), |i: int| v[i]@)
}

/// The variant read from its name, the last path segment of its single
/// unnamed field's type (if it has exactly one such field of a path type)
/// and its attributes.
pub open spec fn spec_parse_variant(
    name: Seq<char>,
    sub_enum: Option<Seq<char>>,
    attrs: Seq<VariantAttrView>,
) -> VariantModel {
    apply_variant_attrs(
        VariantModel {
            doc_attrs: Seq::empty(),
            options: Seq::empty(),
            cli_name: None,
            command_attrs: Seq::empty(),
            name,
            sub_enum,
        },
        attrs,
    )
}

/// Parse a single variant, extracting custom attributes.
pub fn parse_variant(name: &str, sub_enum: Option<String>, attrs: &Vec<VariantAttr>) -> (res: ParsedVariant)
    ensures
        res@ == spec_parse_variant(name@, opt_view(sub_enum), variant_attrs_view(attrs@)),
{
    let mut v = ParsedVariant {
        doc_attrs: Vec::new(),
        options: Vec::new(),
        cli_name: None,
        command_attrs: Vec::new(),
        name: owned(name),
        sub_enum,
    };
    let ghost start = v@;
    assert(start.doc_attrs =~= Seq::<usize>::empty());
    assert(start.options =~= Seq::<Seq<char>>::empty());
    assert(start.command_attrs =~= Seq::<usize>::empty());
    let mut i: usize = 0;
    while i < attrs.len()
        invariant
            i <= attrs@.len(),
            start == spec_parse_variant(name@, opt_view(sub_enum), Seq::empty()),
            v@ == apply_variant_attrs(start, variant_attrs_view(attrs@).take(i as int)),
        decreases attrs@.len() - i,
    {
        let ghost before = v@;
        match &attrs[i] {
            VariantAttr::Doc => {
                v.doc_attrs.push(i);
            },
            VariantAttr::Options(names) => {
                let mut k: usize = 0;
                while k < names.len()
                    invariant
                        k <= names@.len(),
                        v@ == (VariantModel { options: before.options + views_of(names@).take(k as int), ..before }),
                    decreases names@.len() - k,
                {
                    let ghost prev = v.options@;
                    v.options.push(names[k].clone());
                    assert(views_of(v.options@) =~= views_of(prev).push(names@[k as int]@));
                    assert(views_of(names@).take(k + 1) =~= views_of(names@).take(k as int).push(names@[k as int]@));
                    assert(views_of(v.options@) =~= before.options + views_of(names@).take(k + 1));
                    k = k + 1;
                }
                assert(views_of(names@).take(names@.len() as int) =~= views_of(names@));
            },
            VariantAttr::CliName(Some(n)) => {
                v.cli_name = Some(n.clone());
            },
            VariantAttr::CliName(None) => {},
            VariantAttr::Command => {
                v.command_attrs.push(i);
            },
            VariantAttr::Other => {},
        }
        proof {
            let a = variant_attrs_view(attrs@);
            assert(a.take(i + 1).drop_last() =~= a.take(i as int));
            assert(a.take(i + 1).last() == attrs@[i as int]@);
            assert(v@ == apply_variant_attr(before, attrs@[i as int]@, i));
        }
        i = i + 1;
    }
    assert(variant_attrs_view(attrs@).take(attrs@.len() as int) =~= variant_attrs_view(attrs@));
    v
}

/// One attribute of a command enum, by the identifier of its path.
#[derive(Clone, Debug)]
pub enum EnumAttr {
    /// `#[derive(...)]`.
    Derive,
    /// `#[command_enum(...)]`, with its `parent = "..."` value if it has one.
    CommandEnum(Option<String>),
    /// Any other attribute.
    Other,
}

/// The parent named by the first `#[command_enum(parent = "...")]`.
pub open spec fn spec_parent_attr(attrs: Seq<EnumAttr>) -> Option<Seq<char>>
    decreases attrs.len(),
{
    if attrs.len() == 0 {
        None
    } else {
        match attrs[0] {
            EnumAttr::CommandEnum(Some(p)) => Some(p@),
            _ => spec_parent_attr(attrs.drop_first()),
        }
    }
}

/// Extract `#[command_enum(parent = "...")]` from the enum attributes.
pub fn extract_parent_attr(attrs: &Vec<EnumAttr>) -> (res: Option<String>)
    ensures
        opt_view(res) == spec_parent_attr(attrs@),
{
    let mut i: usize = 0;
    assert(attrs@.skip(0) =~= attrs@);
    while i < attrs.len()
        invariant
            i <= attrs@.len(),
            spec_parent_attr(attrs@.skip(i as int)) == spec_parent_attr(attrs@),
        decreases attrs@.len() - i,
    {
        assert(attrs@.skip(i as int).drop_first() =~= attrs@.skip(i + 1));
        if let EnumAttr::CommandEnum(Some(p)) = &attrs[i] {
            return Some(p.clone());
        }
        i = i + 1;
    }
    None
}

/// Positions of the enum attributes forwarded to the generated enums: all
/// but `#[derive(...)]` and `#[command_enum(...)]`.
pub open spec fn spec_forwarded(attrs: Seq<EnumAttr>) -> Seq<usize>
    decreases attrs.len(),
{
    if attrs.len() == 0 {
        Seq::empty()
    } else {
        let rest = spec_forwarded(attrs.drop_last());
        match attrs.last() {
            EnumAttr::Other => rest.push((attrs.len() - 1) as usize),
            _ => rest,
        }
    }
}

/// The positions of the enum attributes to forward.
pub fn forwarded_attrs(attrs: &Vec<EnumAttr>) -> (res: Vec<usize>)
    ensures
        res@ == spec_forwarded(attrs@),
{
    let mut out: Vec<usize> = Vec::new();
    let mut i: usize = 0;
    while i < attrs.len()
        invariant
            i <= attrs@.len(),
            out@ == spec_forwarded(attrs@.take(i as int)),
        decreases attrs@.len() - i,
    {
        assert(attrs@.take(i + 1).drop_last() =~= attrs@.take(i as int));
        if let EnumAttr::Other = &attrs[i] {
            out.push(i);
        }
        i = i + 1;
    }
    assert(attrs@.take(attrs@.len() as int) =~= attrs@);
    out
}


/// How the resolved struct takes a field from the partial struct.
#[derive(Clone, Copy, Debug, PartialEq, Eq, Structural)]
pub enum FieldInit {
    /// An optional field with a static default: the value, or else the default.
    OrElseDefault,
    /// A required-type field with a static default: the value, or else the default.
    UnwrapOrElseDefault,
    /// An optional field without a default: the value as it is.
    AsIs,
    /// A required-type field without a default: the value, or else the type's default.
    UnwrapOrDefault,
}

/// How a field is initialized when the partial struct is resolved.
pub open spec fn spec_field_init(f: FieldModel) -> FieldInit {
    if f.default_value is Some {
        if f.is_option {
            FieldInit::OrElseDefault
        } else {
            FieldInit::UnwrapOrElseDefault
        }
    } else if f.is_option {
        FieldInit::AsIs
    } else {
        FieldInit::UnwrapOrDefault
    }
}

/// The value a field takes in the `Default` of the resolved struct.
#[derive(Clone, Copy, Debug, PartialEq, Eq, Structural)]
pub enum FieldDefault {
    /// `None`, for an optional field.
    Nothing,
    /// The static default expression.
    Expression,
    /// The type's `Default`.
    TypeDefault,
}

/// The default of a field in the resolved struct: `None` for an optional
/// field, else its static default, else its type's default.
pub open spec fn spec_field_default(f: FieldModel) -> FieldDefault {
    if f.is_option {
        FieldDefault::Nothing
    } else if f.default_value is Some {
        FieldDefault::Expression
    } else {
        FieldDefault::TypeDefault
    }
}

impl ParsedField {
    /// How the field is initialized when the partial struct is resolved.
    pub fn field_init(&self) -> (res: FieldInit)
        ensures
            res == spec_field_init(self@),
    {
        if self.default_value.is_some() {
            if self.is_option {
                FieldInit::OrElseDefault
            } else {
                FieldInit::UnwrapOrElseDefault
            }
        } else if self.is_option {
            FieldInit::AsIs
        } else {
            FieldInit::UnwrapOrDefault
        }
    }

    /// The value the field takes in the `Default` of the resolved struct.
    pub fn field_default(&self) -> (res: FieldDefault)
        ensures
            res == spec_field_default(self@),
    {
        if self.is_option {
            FieldDefault::Nothing
        } else if self.default_value.is_some() {
            FieldDefault::Expression
        } else {
            FieldDefault::TypeDefault
        }
    }
}

/// Whether some field computes its default with a function, in which case
/// the partial struct is cloned before resolving.
pub fn has_default_fn(fields: &Vec<ParsedField>) -> (res: bool)
    ensures
        res == exists|i: int| 0 <= i < fields@.len() && (#[trigger] fields@[i]).default_fn is Some,
{
    let mut i: usize = 0;
    while i < fields.len()
        invariant
            i <= fields@.len(),
            forall|j: int| 0 <= j < i ==> (#[trigger] fields@[j]).default_fn is None,
        decreases fields@.len() - i,
    {
        if fields[i].default_fn.is_some() {
            return true;
        }
        i = i + 1;
    }
    false
}

/// The names reported as not set by the required checks: the readable
/// name of each required field, in order.
pub open spec fn spec_required_names(fields: Seq<ParsedField>) -> Seq<Seq<char>>
    decreases fields.len(),
{
    if fields.len() == 0 {
        Seq::empty()
    } else {
        let rest = spec_required_names(fields.drop_last());
        if fields.last().is_required {
            rest.push(spec_field_name_for_error(fields.last().ident@))
        } else {
            rest
        }
    }
}

/// The names checked as required when resolving, in the form they take in
/// a `NotSet` error.
pub fn required_names(fields: &Vec<ParsedField>) -> (res: Vec<String>)
    requires
        forall|i: int|
            0 <= i < fields@.len() ==> (#[trigger] fields@[i]).ident@.len() > 0 ==> fields@[i].ident@[0]
                <= '\u{7f}',
    ensures
        views_of(res@) == spec_required_names(fields@),
{
    let mut out: Vec<String> = Vec::new();
    let mut i: usize = 0;
    while i < fields.len()
        invariant
            i <= fields@.len(),
            forall|j: int|
                0 <= j < fields@.len() ==> (#[trigger] fields@[j]).ident@.len() > 0 ==> fields@[j].ident@[0]
                    <= '\u{7f}',
            views_of(out@) == spec_required_names(fields@.take(i as int)),
        decreases fields@.len() - i,
    {
        assert(fields@.take(i + 1).drop_last() =~= fields@.take(i as int));
        if fields[i].is_required {
            let ghost before = views_of(out@);
            let name = field_name_for_error(fields[i].ident.as_str());
            out.push(name);
            assert(views_of(out@) =~= before.push(spec_field_name_for_error(fields@[i as int].ident@)));
        }
        i = i + 1;
    }
    assert(fields@.take(fields@.len() as int) =~= fields@);
    out
}


/// The command line name of a variant: its `cli_name`, else its name in
/// lower case.
pub open spec fn spec_variant_cli_name(v: VariantModel) -> Seq<char> {
    match v.cli_name {
        Some(n) => n,
        None => spec_lowercase(v.name),
    }
}

/// The flattened fields of a variant, one per option type: the type's name
/// in `snake_case` and its partial type.
pub open spec fn spec_variant_fields(v: VariantModel) -> Seq<(Seq<char>, Seq<char>)> {
    Seq::new(v.options.len(), |i: int| (spec_to_snake_case(v.options[i]), v.options[i] + "Partial"@))
}

impl ParsedVariant {
    /// The name the variant is invoked by on the command line.
    pub fn cli_name(&self) -> (res: String)
        ensures
            res@ == spec_variant_cli_name(self@),
    {
        effective_cli_name(self.name.as_str(), &self.cli_name)
    }

    /// The name documenting a sub-command: the parent command's name, a
    /// space, and the variant's command line name.
    pub fn sub_doc_name(&self, parent_cli_name: &str) -> (res: String)
        ensures
            res@ == parent_cli_name@ + " "@ + spec_variant_cli_name(self@),
    {
        let mut s = owned(parent_cli_name);
        s.append(" ");
        let cli = self.cli_name();
        s.append(cli.as_str());
        s
    }

    /// Whether the variant, in the primary command enum, gets the default
    /// command attributes (a sub-command is required, help is shown without
    /// arguments): it wraps a sub-enum and has no `#[command(...)]` of its own.
    pub fn needs_default_subcommand_attrs(&self) -> (res: bool)
        ensures
            res == (self.sub_enum is Some && self.command_attrs@.len() == 0),
    {
        self.sub_enum.is_some() && self.command_attrs.len() == 0
    }

    /// The flattened option fields of the variant: field name and partial
    /// type of each option type, in order.
    pub fn variant_fields(&self) -> (res: Vec<(String, String)>)
        ensures
            Seq::new(res@.len(), |i: int| (res@[i].0@, res@[i].1@)) == spec_variant_fields(self@),
    {
        let mut out: Vec<(String, String)> = Vec::new();
        let mut i: usize = 0;
        while i < self.options.len()
            invariant
                i <= self.options@.len(),
                out@.len() == i,
                forall|k: int|
                    0 <= k < i ==> (#[trigger] out@[k]).0@ == spec_to_snake_case(self.options@[k]@)
                        && out@[k].1@ == self.options@[k]@ + "Partial"@,
            decreases self.options@.len() - i,
        {
            let field = field_name_for(self.options[i].as_str());
            let partial = partial_type_for(self.options[i].as_str());
            out.push((field, partial));
            i = i + 1;
        }
        assert(Seq::new(out@.len(), |i: int| (out@[i].0@, out@[i].1@)) =~= spec_variant_fields(self@));
        out
    }
}

/// The variant invoked by `name`: the first whose command line name it is.
pub fn resolve_variant(variants: &Vec<ParsedVariant>, name: &str) -> (res: Option<usize>)
    ensures
        match res {
            Some(i) => i < variants@.len() && spec_variant_cli_name(variants@[i as int]@) == name@
                && forall|j: int| 0 <= j < i ==> spec_variant_cli_name(#[trigger] variants@[j]@) != name@,
            None => forall|j: int|
                0 <= j < variants@.len() ==> spec_variant_cli_name(#[trigger] variants@[j]@) != name@,
        },
{
    let mut i: usize = 0;
    while i < variants.len()
        invariant
            i <= variants@.len(),
            forall|j: int| 0 <= j < i ==> spec_variant_cli_name(#[trigger] variants@[j]@) != name@,
        decreases variants@.len() - i,
    {
        let cli = variants[i].cli_name();
        if str_eq(cli.as_str(), name) {
            return Some(i);
        }
        i = i + 1;
    }
    None
}

/// A command listed by the primary enum: a variant, and for a variant that
/// wraps a sub-enum, the sub-command.
#[derive(Clone, Copy, Debug, PartialEq, Eq, Structural)]
pub struct CommandRef {
    /// Position of the variant.
    pub variant: usize,
    /// Position of the sub-command within the wrapped sub-enum.
    pub sub: Option<usize>,
}

/// All commands: each variant in order, a variant wrapping a sub-enum
/// replaced by one entry per sub-command. `sub_counts[i]` is the number of
/// sub-commands of variant `i`, `None` when it wraps no sub-enum.
pub open spec fn spec_all_commands(sub_counts: Seq<Option<usize>>) -> Seq<CommandRef>
    decreases sub_counts.len(),
{
    if sub_counts.len() == 0 {
        Seq::empty()
    } else {
        let rest = spec_all_commands(sub_counts.drop_last());
        let i = (sub_counts.len() - 1) as usize;
        match sub_counts.last() {
            None => rest.push(CommandRef { variant: i, sub: None }),
            Some(n) => rest + Seq::new(n as nat, |k: int| CommandRef { variant: i, sub: Some(k as usize) }),
        }
    }
}

/// All commands of the primary enum, with sub-commands expanded.
pub fn all_commands(sub_counts: &Vec<Option<usize>>) -> (res: Vec<CommandRef>)
    ensures
        res@ == spec_all_commands(sub_counts@),
{
    let mut out: Vec<CommandRef> = Vec::new();
    let mut i: usize = 0;
    while i < sub_counts.len()
        invariant
            i <= sub_counts@.len(),
            out@ == spec_all_commands(sub_counts@.take(i as int)),
        decreases sub_counts@.len() - i,
    {
        assert(sub_counts@.take(i + 1).drop_last() =~= sub_counts@.take(i as int));
        match sub_counts[i] {
            None => {
                out.push(CommandRef { variant: i, sub: None });
            },
            Some(n) => {
                let ghost before = out@;
                let mut k: usize = 0;
                while k < n
                    invariant
                        k <= n,
                        out@ == before + Seq::new(k as nat, |j: int| CommandRef { variant: i, sub: Some(j as usize) }),
                    decreases n - k,
                {
                    out.push(CommandRef { variant: i, sub: Some(k) });
                    assert(out@ =~= before + Seq::new((k + 1) as nat, |j: int| CommandRef { variant: i, sub: Some(j as usize) }));
                    k = k + 1;
                }
            },
        }
        i = i + 1;
    }
    assert(sub_counts@.take(sub_counts@.len() as int) =~= sub_counts@);
    out
}


/// What resolving a partial struct finds of one field.
#[derive(Clone, Copy, Debug)]
pub struct FieldPresence {
    /// The partial struct holds a value for the field.
    pub value_set: bool,
    /// The field's default function, if it has one, gives a value.
    pub default_set: bool,
}

/// Whether a field holds a value once its default function has filled it
/// in: its own value, else the default function's when it has one.
pub open spec fn present_after_default(f: FieldModel, p: FieldPresence) -> bool {
    p.value_set || (f.default_fn is Some && p.default_set)
}

/// The names reported as not set when resolving with validation: the
/// readable name of each required field still empty after its default
/// function, in order.
pub open spec fn spec_not_set_names(fields: Seq<ParsedField>, presence: Seq<FieldPresence>) -> Seq<Seq<char>>
    decreases fields.len(),
{
    if fields.len() == 0 || presence.len() == 0 {
        Seq::empty()
    } else {
        let rest = spec_not_set_names(fields.drop_last(), presence.drop_last());
        if fields.last().is_required && !present_after_default(fields.last()@, presence.last()) {
            rest.push(spec_field_name_for_error(fields.last().ident@))
        } else {
            rest
        }
    }
}

/// The outcome of resolving a partial struct whose fields are `fields`.
///
/// - Without validation it always succeeds
/// - With validation the errors are a `NotSet` for each required field still
///   empty after its default function, named as in [`required_names`],
///   followed by `validation_errors`, the errors that validating the
///   resolved struct found; it succeeds exactly when there are none
pub fn resolve_outcome(
    fields: &Vec<ParsedField>,
    presence: &Vec<FieldPresence>,
    validate: bool,
    validation_errors: Vec<OptionRule>,
) -> (res: Result<(), Vec<OptionRule>>)
    requires
        fields@.len() == presence@.len(),
        forall|i: int|
            0 <= i < fields@.len() ==> (#[trigger] fields@[i]).ident@.len() > 0 ==> fields@[i].ident@[0]
                <= '\u{7f}',
    ensures
        !validate ==> res is Ok,
        validate ==> {
            let names = spec_not_set_names(fields@, presence@);
            match res {
                Ok(_) => names.len() == 0 && validation_errors@.len() == 0,
                Err(errors) => {
                    &&& errors@.len() > 0
                    &&& errors@.len() == names.len() + validation_errors@.len()
                    &&& forall|i: int|
                        0 <= i < names.len() ==> (#[trigger] errors@[i] matches OptionRule::NotSet(n)
                            && n@ == names[i])
                    &&& forall|j: int|
                        0 <= j < validation_errors@.len() ==> errors@[names.len() + j]
                            == #[trigger] validation_errors@[j]
                },
            }
        },
{
    if !validate {
        return Ok(());
    }
    let mut errors: Vec<OptionRule> = Vec::new();
    let mut i: usize = 0;
    while i < fields.len()
        invariant
            i <= fields@.len(),
            fields@.len() == presence@.len(),
            forall|k: int|
                0 <= k < fields@.len() ==> (#[trigger] fields@[k]).ident@.len() > 0 ==> fields@[k].ident@[0]
                    <= '\u{7f}',
            errors@.len() == spec_not_set_names(fields@.take(i as int), presence@.take(i as int)).len(),
            forall|k: int|
                0 <= k < errors@.len() ==> (#[trigger] errors@[k] matches OptionRule::NotSet(n) && n@
                    == spec_not_set_names(fields@.take(i as int), presence@.take(i as int))[k]),
        decreases fields@.len() - i,
    {
        assert(fields@.take(i + 1).drop_last() =~= fields@.take(i as int));
        assert(presence@.take(i + 1).drop_last() =~= presence@.take(i as int));
        let f = &fields[i];
        let p = presence[i];
        let present = p.value_set || (f.default_fn.is_some() && p.default_set);
        if f.is_required && !present {
            let name = field_name_for_error(f.ident.as_str());
            errors.push(OptionRule::NotSet(name));
        }
        i = i + 1;
    }
    assert(fields@.take(fields@.len() as int) =~= fields@);
    assert(presence@.take(presence@.len() as int) =~= presence@);
    let ghost not_set = errors@;
    let mut rest = validation_errors;
    errors.append(&mut rest);
    assert(errors@ == not_set + validation_errors@);
    if errors.len() == 0 {
        Ok(())
    } else {
        Err(errors)
    }
}


/// One field of a partial options struct merged with the same field of
/// another: a value already set stays, and only a gap takes the other's.
pub fn merge_field<T>(mine: Option<T>, other: Option<T>) -> (res: Option<T>)
    ensures
        res == (if mine is Some {
            mine
        } else {
            other
        }),
{
    match mine {
        Some(v) => Some(v),
        None => other,
    }
}

/// Two partial options structs merged field by field, in field order.
pub open spec fn spec_merge_fields<T>(mine: Seq<Option<T>>, other: Seq<Option<T>>) -> Seq<Option<T>> {
    Seq::new(
        mine.len(),
        |i: int|
            if mine[i] is Some {
                mine[i]
            } else {
                other[i]
            },
    )
}

/// Merges the fields of `other` into `mine`: each field that `mine` has set
/// keeps its value, and each that it lacks takes `other`'s.
pub fn merge_fields<T>(mine: &mut Vec<Option<T>>, other: Vec<Option<T>>)
    requires
        old(mine)@.len() == other@.len(),
    ensures
        final(mine)@ == spec_merge_fields(old(mine)@, other@),
{
    let ghost start = mine@;
    let ghost theirs = other@;
    let mut other = other;
    let mut i: usize = other.len();
    while i > 0
        invariant
            i <= theirs.len(),
            mine@.len() == theirs.len(),
            start.len() == theirs.len(),
            other@ == theirs.take(i as int),
            forall|k: int| 0 <= k < i ==> mine@[k] == start[k],
            forall|k: int|
                i <= k < theirs.len() ==> mine@[k] == (if start[k] is Some {
                    start[k]
                } else {
                    theirs[k]
                }),
        decreases i,
    {
        i = i - 1;
        let last = other.pop();
        assert(theirs.take(i as int) =~= theirs.take(i + 1).drop_last());
        if let Some(v) = last {
            if mine[i].is_none() {
                mine.set(i, v);
            }
        }
    }
    assert(mine@ =~= spec_merge_fields(start, theirs));
}

/// How a field of the partial struct takes its command-line argument.
#[derive(Clone, Debug, PartialEq, Eq)]
pub enum ArgAttr {
    /// `--<name>` as a flag that sets `true` when present.
    SetTrueFlag(String),
    /// The field's own `#[arg(...)]` attributes, by position.
    Forwarded(Vec<usize>),
    /// `--<name>` as a long option that takes a value.
    Long(String),
}

impl ParsedField {
    /// The command-line argument of the field in the partial struct: a
    /// `bool` field is a flag, another field keeps its own `#[arg(...)]`
    /// attributes where it has any, else it is a long option; flags and
    /// options are named after the field with `-` for `_`.
    pub fn arg_attr(&self) -> (res: ArgAttr)
        ensures
            self.is_bool ==> (res matches ArgAttr::SetTrueFlag(n) && n@ == spec_replace_char(
                self.ident@,
                '_',
                '-',
            )),
            !self.is_bool && self.arg_attrs@.len() > 0 ==> (res matches ArgAttr::Forwarded(p)
                && p@ == self.arg_attrs@),
            !self.is_bool && self.arg_attrs@.len() == 0 ==> (res matches ArgAttr::Long(n) && n@
                == spec_replace_char(self.ident@, '_', '-')),
    {
        if self.is_bool {
            ArgAttr::SetTrueFlag(replace_char(self.ident.as_str(), '_', '-'))
        } else if self.arg_attrs.len() > 0 {
            ArgAttr::Forwarded(self.arg_attrs.clone())
        } else {
            ArgAttr::Long(replace_char(self.ident.as_str(), '_', '-'))
        }
    }

    /// The field's own `#[serde(...)]` attributes, by position, to forward
    /// to the partial struct; `None` where it has none, and the partial
    /// field then defaults to empty and is left out of output when empty.
    pub fn forwarded_serde_attrs(&self) -> (res: Option<Vec<usize>>)
        ensures
            res is None <==> self.serde_attrs@.len() == 0,
            res matches Some(p) ==> p@ == self.serde_attrs@,
    {
        if self.serde_attrs.len() == 0 {
            None
        } else {
            Some(self.serde_attrs.clone())
        }
    }

    /// Whether the partial struct wraps the field's type in `Option`: every
    /// field but one that is already optional.
    pub fn partial_wraps_in_option(&self) -> (res: bool)
        ensures
            res == !self.is_option,
    {
        !self.is_option
    }

    /// The documentation line that states the field's default, where it
    /// has one: `` Default: `<default>` ``, with a leading space.
    pub fn default_doc_line(&self) -> (res: Option<String>)
        ensures
            opt_view(res) == (match spec_field_default_text(self@) {
                Some(d) => Some(" Default: `"@ + d + "`"@),
                None => None,
            }),
    {
        match self.default_text() {
            Some(d) => {
                let mut line = owned(" Default: `");
                line.append(d.as_str());
                line.append("`");
                Some(line)
            },
            None => None,
        }
    }
}

} // verus!
