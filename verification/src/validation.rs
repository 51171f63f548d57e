//! Field validation: the rules that request payloads are checked against,
//! and the errors they report (field, rule code, message and parameters).
use vstd::prelude::*;
use vstd::string::*;
use crate::decimal::Price;

verus! {

/// The payload fields that rules are attached to.
#[derive(Clone, Copy, Debug, PartialEq, Eq)]
pub enum Field {
    Name,
    Image,
    Description,
    Title,
    Text,
    Email,
    CategoryId,
    LongDescription,
    Price,
    ComparedAtPrice,
    ReviewCount,
    Rating,
    Sku,
    Tagline,
    Stock,
    ProductFeatures,
    ProductImages,
    ImageUrl,
}

impl Field {
    /// The field's name in the JSON payload.
    pub fn as_str(&self) -> (r: &'static str)
        ensures
            r@ == field_name(*self),
    {
        match self {
            Field::Name => "name",
            Field::Image => "image",
            Field::Description => "description",
            Field::Title => "title",
            Field::Text => "text",
            Field::Email => "email",
            Field::CategoryId => "category_id",
            Field::LongDescription => "long_description",
            Field::Price => "price",
            Field::ComparedAtPrice => "compared_at_price",
            Field::ReviewCount => "review_count",
            Field::Rating => "rating",
            Field::Sku => "sku",
            Field::Tagline => "tagline",
            Field::Stock => "stock",
            Field::ProductFeatures => "product_features",
            Field::ProductImages => "product_images",
            Field::ImageUrl => "image_url",
        }
    }
}

/// The JSON name of a field.
pub open spec fn field_name(f: Field) -> Seq<char> {
    match f {
        Field::Name => "name"@,
        Field::Image => "image"@,
        Field::Description => "description"@,
        Field::Title => "title"@,
        Field::Text => "text"@,
        Field::Email => "email"@,
        Field::CategoryId => "category_id"@,
        Field::LongDescription => "long_description"@,
        Field::Price => "price"@,
        Field::ComparedAtPrice => "compared_at_price"@,
        Field::ReviewCount => "review_count"@,
        Field::Rating => "rating"@,
        Field::Sku => "sku"@,
        Field::Tagline => "tagline"@,
        Field::Stock => "stock"@,
        Field::ProductFeatures => "product_features"@,
        Field::ProductImages => "product_images"@,
        Field::ImageUrl => "image_url"@,
    }
}

/// The rule that a field failed.
#[derive(Clone, Copy, Debug, PartialEq, Eq)]
pub enum Code {
    Length,
    Range,
    Url,
    InvalidUuid,
    InvalidPrice,
}

impl Code {
    /// The rule's code as reported to clients.
    pub fn as_str(&self) -> (r: &'static str)
        ensures
            r@ == code_name(*self),
    {
        match self {
            Code::Length => "length",
            Code::Range => "range",
            Code::Url => "url",
            Code::InvalidUuid => "invalid_uuid",
            Code::InvalidPrice => "invalid_price",
        }
    }
}

/// The reported name of a rule code.
pub open spec fn code_name(c: Code) -> Seq<char> {
    match c {
        Code::Length => "length"@,
        Code::Range => "range"@,
        Code::Url => "url"@,
        Code::InvalidUuid => "invalid_uuid"@,
        Code::InvalidPrice => "invalid_price"@,
    }
}

/// The offending value, reported with the error.
#[derive(Clone, Debug, PartialEq, Eq)]
pub enum Param {
    Text(String),
    Int(i64),
    Id(u128),
    Amount(Price),
    EmptyList,
}

impl Param {
    /// A copy of the value.
    pub fn duplicate(&self) -> (r: Param)
        ensures
            r@ == self@,
    {
        match self {
            Param::Text(s) => Param::Text(s.clone()),
            Param::Int(i) => Param::Int(*i),
            Param::Id(x) => Param::Id(*x),
            Param::Amount(p) => Param::Amount(*p),
            Param::EmptyList => Param::EmptyList,
        }
    }
}

/// The mathematical content of a [`Param`].
pub ghost enum ParamView {
    Text(Seq<char>),
    Int(int),
    Id(u128),
    Amount(Price),
    EmptyList,
}

impl View for Param {
    type V = ParamView;

    open spec fn view(&self) -> ParamView {
        match self {
            Param::Text(s) => ParamView::Text(s@),
            Param::Int(i) => ParamView::Int(*i as int),
            Param::Id(x) => ParamView::Id(*x),
            Param::Amount(p) => ParamView::Amount(*p),
            Param::EmptyList => ParamView::EmptyList,
        }
    }
}

/// One failed rule. For a rule on an element of a list field, `item` holds
/// the element's index and the element's field that failed.
#[derive(Clone, Debug, PartialEq, Eq)]
pub struct FieldError {
    pub field: Field,
    pub item: Option<(usize, Field)>,
    pub code: Code,
    pub message: Option<&'static str>,
    pub min: Option<i64>,
    pub max: Option<i64>,
    pub value: Param,
}

/// The mathematical content of a [`FieldError`].
pub ghost struct FieldErrorView {
    pub field: Field,
    pub item: Option<(usize, Field)>,
    pub code: Code,
    pub message: Option<Seq<char>>,
    pub min: Option<i64>,
    pub max: Option<i64>,
    pub value: ParamView,
}

impl View for FieldError {
    type V = FieldErrorView;

    open spec fn view(&self) -> FieldErrorView {
        FieldErrorView {
            field: self.field,
            item: self.item,
            code: self.code,
            message: match self.message {
                Some(m) => Some(m@),
                None => None,
            },
            min: self.min,
            max: self.max,
            value: self.value@,
        }
    }
}

/// All failed rules of a payload, in field order.
#[derive(Clone, Debug, PartialEq, Eq)]
pub struct ValidationErrors {
    pub errors: Vec<FieldError>,
}

impl View for ValidationErrors {
    type V = Seq<FieldErrorView>;

    open spec fn view(&self) -> Seq<FieldErrorView> {
        self.errors@.map_values(|e: FieldError| e@)
    }
}

/// The outcome of validating a payload whose failed rules are `errs`.
pub open spec fn outcome(errs: Seq<FieldErrorView>, r: Result<(), ValidationErrors>) -> bool {
    match r {
        Ok(()) => errs.len() == 0,
        Err(e) => errs.len() > 0 && e@ == errs,
    }
}

/// A length rule holds: `min <= len` and `len <= max` where given.
pub open spec fn length_holds(len: int, min: Option<i64>, max: Option<i64>) -> bool {
    (match min {
        Some(m) => m <= len,
        None => true,
    }) && (match max {
        Some(m) => len <= m,
        None => true,
    })
}

/// The error list of a length rule on a text (its length in characters).
pub open spec fn text_length_errors(
    field: Field,
    value: Seq<char>,
    min: Option<i64>,
    max: Option<i64>,
    message: Seq<char>,
) -> Seq<FieldErrorView> {
    if length_holds(value.len() as int, min, max) {
        seq![]
    } else {
        seq![
            FieldErrorView {
                field,
                item: None,
                code: Code::Length,
                message: Some(message),
                min,
                max,
                value: ParamView::Text(value),
            },
        ]
    }
}

/// The error list of a range rule on a number.
pub open spec fn range_errors(
    field: Field,
    value: int,
    min: Option<i64>,
    max: Option<i64>,
    message: Seq<char>,
) -> Seq<FieldErrorView> {
    if length_holds(value, min, max) {
        seq![]
    } else {
        seq![
            FieldErrorView {
                field,
                item: None,
                code: Code::Range,
                message: Some(message),
                min,
                max,
                value: ParamView::Int(value),
            },
        ]
    }
}

/// Whether a text's character count satisfies a length rule (the rule
/// `validator` applies to strings: it counts characters).
pub fn length_ok(s: &str, min: Option<i64>, max: Option<i64>) -> (r: bool)
    ensures
        r == length_holds(s@.len() as int, min, max),
{
    let n = s.unicode_len();
    let lo = match min {
        Some(m) => m <= 0 || (n as u64) >= (m as u64),
        None => true,
    };
    let hi = match max {
        Some(m) => m >= 0 && (n as u64) <= (m as u64),
        None => true,
    };
    lo && hi
}

/// Whether a number lies within a range rule's bounds.
pub fn range_ok(v: i64, min: Option<i64>, max: Option<i64>) -> (r: bool)
    ensures
        r == length_holds(v as int, min, max),
{
    let lo = match min {
        Some(m) => m <= v,
        None => true,
    };
    let hi = match max {
        Some(m) => v <= m,
        None => true,
    };
    lo && hi
}

/// Appends the error of a length rule on `value` when the rule fails.
pub fn check_text_length(
    errs: &mut Vec<FieldError>,
    field: Field,
    value: &String,
    min: Option<i64>,
    max: Option<i64>,
    message: &'static str,
)
    ensures
        final(errs)@.map_values(|e: FieldError| e@) == old(errs)@.map_values(|e: FieldError| e@)
            + text_length_errors(field, value@, min, max, message@),
{
    let ghost before = errs@;
    if !length_ok(value.as_str(), min, max) {
        errs.push(
            FieldError {
                field,
                item: None,
                code: Code::Length,
                message: Some(message),
                min,
                max,
                value: Param::Text(value.clone()),
            },
        );
    }
    assert(errs@.map_values(|e: FieldError| e@) =~= before.map_values(|e: FieldError| e@)
        + text_length_errors(field, value@, min, max, message@));
}

/// Appends the error of a range rule on `value` when the rule fails.
pub fn check_range(
    errs: &mut Vec<FieldError>,
    field: Field,
    value: i64,
    min: Option<i64>,
    max: Option<i64>,
    message: &'static str,
)
    ensures
        final(errs)@.map_values(|e: FieldError| e@) == old(errs)@.map_values(|e: FieldError| e@)
            + range_errors(field, value as int, min, max, message@),
{
    let ghost before = errs@;
    if !range_ok(value, min, max) {
        errs.push(
            FieldError {
                field,
                item: None,
                code: Code::Range,
                message: Some(message),
                min,
                max,
                value: Param::Int(value),
            },
        );
    }
    assert(errs@.map_values(|e: FieldError| e@) =~= before.map_values(|e: FieldError| e@)
        + range_errors(field, value as int, min, max, message@));
}

/// Whether `url::Url::parse` accepts the text (what the `url` rule of
/// `validator` tests).
pub uninterp spec fn is_url(s: Seq<char>) -> bool;

/// Calls `validator::ValidateUrl::validate_url` on the text.
/// Claimed: the answer is `is_url` of the text's characters; which texts parse
/// as URLs is left unstated.
#[verifier::external_body]
pub(crate) fn url_ok(s: &String) -> (r: bool)
    ensures
        r == is_url(s@),
{
    validator::ValidateUrl::validate_url(s)
}

/// Turns the collected errors into the outcome of a validation.
pub fn finish(errs: Vec<FieldError>) -> (r: Result<(), ValidationErrors>)
    ensures
        outcome(errs@.map_values(|e: FieldError| e@), r),
{
    if errs.len() == 0 {
        Ok(())
    } else {
        let r = ValidationErrors { errors: errs };
        Err(r)
    }
}


/// The error list of a length rule on an optional text: nothing when absent.
pub open spec fn opt_text_length_errors(
    field: Field,
    value: Option<String>,
    min: Option<i64>,
    max: Option<i64>,
    message: Seq<char>,
) -> Seq<FieldErrorView> {
    match value {
        Some(v) => text_length_errors(field, v@, min, max, message),
        None => seq![],
    }
}

/// The error list of a range rule on an optional number: nothing when absent.
pub open spec fn opt_range_errors(
    field: Field,
    value: Option<i32>,
    min: Option<i64>,
    max: Option<i64>,
    message: Seq<char>,
) -> Seq<FieldErrorView> {
    match value {
        Some(v) => range_errors(field, v as int, min, max, message),
        None => seq![],
    }
}

/// The error list of the identifier rule: the nil identifier fails.
pub open spec fn id_errors(field: Field, id: u128) -> Seq<FieldErrorView> {
    if id == 0 {
        seq![
            FieldErrorView {
                field,
                item: None,
                code: Code::InvalidUuid,
                message: None,
                min: None,
                max: None,
                value: ParamView::Id(id),
            },
        ]
    } else {
        seq![]
    }
}

/// The error list of the identifier rule on an optional identifier.
pub open spec fn opt_id_errors(field: Field, id: Option<u128>) -> Seq<FieldErrorView> {
    match id {
        Some(x) => id_errors(field, x),
        None => seq![],
    }
}

/// The error list of the price rule: a price must be greater than zero.
pub open spec fn price_errors(field: Field, p: Price) -> Seq<FieldErrorView> {
    if p.is_positive() {
        seq![]
    } else {
        seq![
            FieldErrorView {
                field,
                item: None,
                code: Code::InvalidPrice,
                message: None,
                min: None,
                max: None,
                value: ParamView::Amount(p),
            },
        ]
    }
}

/// The error list of the price rule on an optional price.
pub open spec fn opt_price_errors(field: Field, p: Option<Price>) -> Seq<FieldErrorView> {
    match p {
        Some(x) => price_errors(field, x),
        None => seq![],
    }
}

/// Checks that an identifier is not the nil identifier (all zero bits).
pub fn validate_uuid(id: &u128) -> (r: Result<(), Code>)
    ensures
        r == (if *id == 0 { Err(Code::InvalidUuid) } else { Ok::<(), Code>(()) }),
{
    if *id == 0 {
        return Err(Code::InvalidUuid);
    }
    Ok(())
}

/// Checks that a price is greater than zero.
pub fn validate_decimal(price: &Price) -> (r: Result<(), Code>)
    ensures
        r == (if price.is_positive() { Ok::<(), Code>(()) } else { Err(Code::InvalidPrice) }),
{
    if price.mantissa <= 0 {
        return Err(Code::InvalidPrice);
    }
    Ok(())
}

/// Appends the error of a length rule on an optional text when it is present and fails.
pub fn check_opt_text_length(
    errs: &mut Vec<FieldError>,
    field: Field,
    value: &Option<String>,
    min: Option<i64>,
    max: Option<i64>,
    message: &'static str,
)
    ensures
        final(errs)@.map_values(|e: FieldError| e@) == old(errs)@.map_values(|e: FieldError| e@)
            + opt_text_length_errors(field, *value, min, max, message@),
{
    let ghost before = errs@;
    match value {
        Some(v) => check_text_length(errs, field, v, min, max, message),
        None => {
            assert(errs@.map_values(|e: FieldError| e@) =~= before.map_values(|e: FieldError| e@)
                + opt_text_length_errors(field, *value, min, max, message@));
        },
    }
}

/// Appends the error of a range rule on an optional number when it is present and fails.
pub fn check_opt_range(
    errs: &mut Vec<FieldError>,
    field: Field,
    value: Option<i32>,
    min: Option<i64>,
    max: Option<i64>,
    message: &'static str,
)
    ensures
        final(errs)@.map_values(|e: FieldError| e@) == old(errs)@.map_values(|e: FieldError| e@)
            + opt_range_errors(field, value, min, max, message@),
{
    let ghost before = errs@;
    match value {
        Some(v) => check_range(errs, field, v as i64, min, max, message),
        None => {
            assert(errs@.map_values(|e: FieldError| e@) =~= before.map_values(|e: FieldError| e@)
                + opt_range_errors(field, value, min, max, message@));
        },
    }
}

/// Appends the error of the identifier rule when the identifier is nil.
pub fn check_id(errs: &mut Vec<FieldError>, field: Field, id: u128)
    ensures
        final(errs)@.map_values(|e: FieldError| e@) == old(errs)@.map_values(|e: FieldError| e@)
            + id_errors(field, id),
{
    let ghost before = errs@;
    match validate_uuid(&id) {
        Ok(()) => {},
        Err(code) => {
            errs.push(
                FieldError {
                    field,
                    item: None,
                    code,
                    message: None,
                    min: None,
                    max: None,
                    value: Param::Id(id),
                },
            );
        },
    }
    assert(errs@.map_values(|e: FieldError| e@) =~= before.map_values(|e: FieldError| e@)
        + id_errors(field, id));
}

/// Appends the error of the identifier rule on an optional identifier.
pub fn check_opt_id(errs: &mut Vec<FieldError>, field: Field, id: Option<u128>)
    ensures
        final(errs)@.map_values(|e: FieldError| e@) == old(errs)@.map_values(|e: FieldError| e@)
            + opt_id_errors(field, id),
{
    let ghost before = errs@;
    match id {
        Some(x) => check_id(errs, field, x),
        None => {
            assert(errs@.map_values(|e: FieldError| e@) =~= before.map_values(|e: FieldError| e@)
                + opt_id_errors(field, id));
        },
    }
}

/// Appends the error of the price rule when the price is not positive.
pub fn check_price(errs: &mut Vec<FieldError>, field: Field, p: Price)
    ensures
        final(errs)@.map_values(|e: FieldError| e@) == old(errs)@.map_values(|e: FieldError| e@)
            + price_errors(field, p),
{
    let ghost before = errs@;
    match validate_decimal(&p) {
        Ok(()) => {},
        Err(code) => {
            errs.push(
                FieldError {
                    field,
                    item: None,
                    code,
                    message: None,
                    min: None,
                    max: None,
                    value: Param::Amount(p),
                },
            );
        },
    }
    assert(errs@.map_values(|e: FieldError| e@) =~= before.map_values(|e: FieldError| e@)
        + price_errors(field, p));
}

/// Appends the error of the price rule on an optional price.
pub fn check_opt_price(errs: &mut Vec<FieldError>, field: Field, p: Option<Price>)
    ensures
        final(errs)@.map_values(|e: FieldError| e@) == old(errs)@.map_values(|e: FieldError| e@)
            + opt_price_errors(field, p),
{
    let ghost before = errs@;
    match p {
        Some(x) => check_price(errs, field, x),
        None => {
            assert(errs@.map_values(|e: FieldError| e@) =~= before.map_values(|e: FieldError| e@)
                + opt_price_errors(field, p));
        },
    }
}

/// The parameters reported with a failed rule, by name: the bounds of a
/// length or range rule (those that are set), then the offending value.
pub open spec fn params_of(e: FieldErrorView) -> Seq<(Seq<char>, ParamView)> {
    let bounds: Seq<(Seq<char>, ParamView)> = match e.code {
        Code::Length | Code::Range => (match e.min {
            Some(m) => seq![("min"@, ParamView::Int(m as int))],
            None => seq![],
        }) + (match e.max {
            Some(m) => seq![("max"@, ParamView::Int(m as int))],
            None => seq![],
        }),
        _ => seq![],
    };
    bounds.push(("value"@, e.value))
}

/// The parameters of a failed rule, as [`params_of`] lists them.
pub fn error_params(e: &FieldError) -> (r: Vec<(&'static str, Param)>)
    ensures
        r@.map_values(|p: (&'static str, Param)| (p.0@, p.1@)) == params_of(e@),
{
    let mut out: Vec<(&'static str, Param)> = Vec::new();
    match e.code {
        Code::Length | Code::Range => {
            match e.min {
                Some(m) => out.push(("min", Param::Int(m))),
                None => {},
            }
            match e.max {
                Some(m) => out.push(("max", Param::Int(m))),
                None => {},
            }
        },
        _ => {},
    }
    out.push(("value", e.value.duplicate()));
    assert(out@.map_values(|p: (&'static str, Param)| (p.0@, p.1@)) =~= params_of(e@));
    out
}

/// The errors report a failed rule on the field itself (not on a list
/// element), with the given rule code, bounds and message.
pub open spec fn reports(
    errs: Seq<FieldErrorView>,
    field: Field,
    code: Code,
    min: Option<i64>,
    max: Option<i64>,
    message: Option<Seq<char>>,
) -> bool {
    exists|i: int|
        #![trigger errs[i]]
        0 <= i < errs.len() && errs[i].field == field && errs[i].item is None && errs[i].code == code
            && errs[i].min == min && errs[i].max == max && errs[i].message == message
}

/// The errors report a failed rule on element `index` of list field `field`,
/// on that element's field `inner`, with the given rule code and message.
pub open spec fn reports_item(
    errs: Seq<FieldErrorView>,
    field: Field,
    index: int,
    inner: Field,
    code: Code,
    message: Option<Seq<char>>,
) -> bool {
    exists|i: int|
        #![trigger errs[i]]
        0 <= i < errs.len() && errs[i].field == field && errs[i].item == Some((index as usize, inner))
            && errs[i].code == code && errs[i].message == message
}

/// Two error lists together report what either reports.
pub broadcast proof fn reports_concat(
    a: Seq<FieldErrorView>,
    b: Seq<FieldErrorView>,
    field: Field,
    code: Code,
    min: Option<i64>,
    max: Option<i64>,
    message: Option<Seq<char>>,
)
    ensures
        #[trigger] reports(a + b, field, code, min, max, message) <==> (reports(
            a,
            field,
            code,
            min,
            max,
            message,
        ) || reports(b, field, code, min, max, message)),
{
    let s = a + b;
    if reports(a, field, code, min, max, message) {
        let i = choose|i: int|
            #![trigger a[i]]
            0 <= i < a.len() && a[i].field == field && a[i].item is None && a[i].code == code
                && a[i].min == min && a[i].max == max && a[i].message == message;
        assert(s[i] == a[i]);
    }
    if reports(b, field, code, min, max, message) {
        let k = choose|k: int|
            #![trigger b[k]]
            0 <= k < b.len() && b[k].field == field && b[k].item is None && b[k].code == code
                && b[k].min == min && b[k].max == max && b[k].message == message;
        assert(s[a.len() + k] == b[k]);
    }
    if reports(s, field, code, min, max, message) {
        let i = choose|i: int|
            #![trigger s[i]]
            0 <= i < s.len() && s[i].field == field && s[i].item is None && s[i].code == code
                && s[i].min == min && s[i].max == max && s[i].message == message;
        if i < a.len() {
            assert(a[i] == s[i]);
        } else {
            assert(b[i - a.len()] == s[i]);
        }
    }
}

/// Two error lists together report what either reports, for list elements.
pub broadcast proof fn reports_item_concat(
    a: Seq<FieldErrorView>,
    b: Seq<FieldErrorView>,
    field: Field,
    index: int,
    inner: Field,
    code: Code,
    message: Option<Seq<char>>,
)
    ensures
        #[trigger] reports_item(a + b, field, index, inner, code, message) <==> (reports_item(
            a,
            field,
            index,
            inner,
            code,
            message,
        ) || reports_item(b, field, index, inner, code, message)),
{
    let s = a + b;
    if reports_item(a, field, index, inner, code, message) {
        let i = choose|i: int|
            #![trigger a[i]]
            0 <= i < a.len() && a[i].field == field && a[i].item == Some((index as usize, inner))
                && a[i].code == code && a[i].message == message;
        assert(s[i] == a[i]);
    }
    if reports_item(b, field, index, inner, code, message) {
        let k = choose|k: int|
            #![trigger b[k]]
            0 <= k < b.len() && b[k].field == field && b[k].item == Some((index as usize, inner))
                && b[k].code == code && b[k].message == message;
        assert(s[a.len() + k] == b[k]);
    }
    if reports_item(s, field, index, inner, code, message) {
        let i = choose|i: int|
            #![trigger s[i]]
            0 <= i < s.len() && s[i].field == field && s[i].item == Some((index as usize, inner))
                && s[i].code == code && s[i].message == message;
        if i < a.len() {
            assert(a[i] == s[i]);
        } else {
            assert(b[i - a.len()] == s[i]);
        }
    }
}

/// A length rule reports nothing when the length is within its bounds, and
/// otherwise one error on the field with the rule's bounds and message.
pub broadcast proof fn text_length_rule(
    field: Field,
    value: Seq<char>,
    min: Option<i64>,
    max: Option<i64>,
    message: Seq<char>,
)
    ensures
        (#[trigger] text_length_errors(field, value, min, max, message)).len() == (if (match min {
            Some(m) => m <= value.len(),
            None => true,
        }) && (match max {
            Some(m) => value.len() <= m,
            None => true,
        }) {
            0int
        } else {
            1int
        }),
        text_length_errors(field, value, min, max, message).len() > 0 ==> reports(
            text_length_errors(field, value, min, max, message),
            field,
            Code::Length,
            min,
            max,
            Some(message),
        ),
{
    let e = text_length_errors(field, value, min, max, message);
    if e.len() > 0 {
        assert(e[0].field == field);
    }
}

/// A range rule reports nothing when the value is within its bounds, and
/// otherwise one error on the field with the rule's bounds and message.
pub broadcast proof fn range_rule(
    field: Field,
    value: int,
    min: Option<i64>,
    max: Option<i64>,
    message: Seq<char>,
)
    ensures
        (#[trigger] range_errors(field, value, min, max, message)).len() == (if (match min {
            Some(m) => m <= value,
            None => true,
        }) && (match max {
            Some(m) => value <= m,
            None => true,
        }) {
            0int
        } else {
            1int
        }),
        range_errors(field, value, min, max, message).len() > 0 ==> reports(
            range_errors(field, value, min, max, message),
            field,
            Code::Range,
            min,
            max,
            Some(message),
        ),
{
    let e = range_errors(field, value, min, max, message);
    if e.len() > 0 {
        assert(e[0].field == field);
    }
}

/// The identifier rule reports exactly the nil identifier.
pub broadcast proof fn id_rule(field: Field, id: u128)
    ensures
        (#[trigger] id_errors(field, id)).len() == (if id == 0 { 1int } else { 0int }),
        id == 0 ==> reports(id_errors(field, id), field, Code::InvalidUuid, None, None, None),
{
    let e = id_errors(field, id);
    if id == 0 {
        assert(e[0].field == field);
    }
}

/// The price rule reports exactly a price that is not above zero.
pub broadcast proof fn price_rule(field: Field, p: Price)
    ensures
        (#[trigger] price_errors(field, p)).len() == (if p.mantissa > 0 { 0int } else { 1int }),
        p.mantissa <= 0 ==> reports(price_errors(field, p), field, Code::InvalidPrice, None, None, None),
{
    let e = price_errors(field, p);
    if p.mantissa <= 0 {
        assert(e[0].field == field);
    }
}

} // verus!
