//! The interface transformer.
//!
//! Given an annotated interface declaration it either produces the generated
//! interface — the declaration with its marker attributes stripped, the name
//! of the client type, and one request plan per method — or rejects the
//! declaration with a single diagnostic, the first error in declaration
//! order. Per method the checks run in a fixed order: the HTTP-method
//! attribute must be present, its path template and verb must parse, and the
//! method may not carry a default body; then each parameter is classified by
//! its marker as a path, query or JSON-body argument and the marker is
//! removed from the declaration.

use crate::decl::{AttrDecl, AttrView, ItemView, MethodDecl, MethodView, ParamDecl, ParamView,
    TraitDecl, TraitItemDecl, TraitView};
use crate::search::{attr_matches, find_attr, lemma_find_attr_is, lemma_find_attr_none};
use crate::search::str_eq;
use vstd::prelude::*;
use vstd::string::*;

verus! {

/// The kinds of diagnostic the transformer can report.
#[derive(Clone, Copy, Debug, PartialEq, Eq, Structural)]
pub enum GenErrorKind {
    /// No attribute whose path starts with `http` was found on the method.
    MissingHttpAttribute,
    /// The HTTP-method attribute carries no string-literal path template.
    MissingPathTemplate,
    /// The HTTP-method attribute's path has no verb segment after `http`.
    MissingVerbSegment,
    /// The method declares a default body.
    DefaultBody,
}

/// A generation-time diagnostic: its kind and the method it points at.
#[derive(Clone, Debug, PartialEq)]
pub struct GenError {
    pub kind: GenErrorKind,
    pub method: String,
}

/// Ghost image of a [`GenError`].
#[verifier::ext_equal]
pub struct GenErrorView {
    pub kind: GenErrorKind,
    pub method: Seq<char>,
}

impl View for GenError {
    type V = GenErrorView;

    open spec fn view(&self) -> GenErrorView {
        GenErrorView { kind: self.kind, method: self.method@ }
    }
}

impl GenError {
    /// The diagnostic text reported for each kind of failure.
    pub fn message(&self) -> (r: &'static str)
        ensures
            self.kind == GenErrorKind::MissingHttpAttribute ==> r@ == "Missing http method attribute"@,
            self.kind == GenErrorKind::MissingPathTemplate ==> r@ == "expected string literal"@,
            self.kind == GenErrorKind::MissingVerbSegment ==> r@ == "http attribute missing method"@,
            self.kind == GenErrorKind::DefaultBody ==> r@
                == "retroquest trait methods cannot have defaults"@,
    {
        match self.kind {
            GenErrorKind::MissingHttpAttribute => "Missing http method attribute",
            GenErrorKind::MissingPathTemplate => "expected string literal",
            GenErrorKind::MissingVerbSegment => "http attribute missing method",
            GenErrorKind::DefaultBody => "retroquest trait methods cannot have defaults",
        }
    }
}

/// Remove and return the first attribute whose leading path segment is
/// `name`; the remaining attributes keep their order.
pub fn get_att(attrs: &mut Vec<AttrDecl>, name: &str) -> (r: Option<AttrDecl>)
    ensures
        ({
            let i = find_attr(old(attrs).deep_view(), name@);
            &&& i == -1 || 0 <= i < old(attrs).deep_view().len()
            &&& i == -1 ==> r is None && final(attrs).deep_view() == old(attrs).deep_view()
            &&& i >= 0 ==> r is Some && r->0@ == old(attrs).deep_view()[i]
                && attr_matches(old(attrs).deep_view()[i], name@)
                && final(attrs).deep_view() == old(attrs).deep_view().remove(i)
        }),
{
    let ghost a0 = attrs.deep_view();
    let mut k: usize = 0;
    loop
        invariant
            k <= attrs@.len(),
            a0 == attrs.deep_view(),
            a0.len() == attrs@.len(),
            forall|m: int| 0 <= m < k ==> !attr_matches(#[trigger] a0[m], name@),
        ensures
            k <= a0.len(),
            a0 == attrs.deep_view(),
            k < a0.len() ==> attr_matches(a0[k as int], name@),
            forall|m: int| 0 <= m < k ==> !attr_matches(#[trigger] a0[m], name@),
        decreases attrs@.len() - k,
    {
        if k >= attrs.len() {
            break ;
        }
        let hit = attrs[k].segments.len() > 0 && str_eq(attrs[k].segments[0].as_str(), name);
        proof {
            assert(a0[k as int] == attrs@[k as int]@);
            assert(attrs@[k as int]@.segments.len() == attrs@[k as int].segments@.len());
            if attrs@[k as int].segments@.len() > 0 {
                assert(attrs@[k as int]@.segments[0] == attrs@[k as int].segments@[0]@);
            }
        }
        if hit {
            break ;
        }
        k += 1;
    }
    if k < attrs.len() {
        proof {
            lemma_find_attr_is(a0, name@, k as int);
        }
        let found = attrs.remove(k);
        proof {
            assert(found@ == a0[k as int]);
            assert(attrs.deep_view() =~= a0.remove(k as int));
        }
        Some(found)
    } else {
        proof {
            lemma_find_attr_none(a0, name@);
        }
        None
    }
}

/// The verb and path template carried by an HTTP-method attribute.
#[derive(Clone, Debug, PartialEq)]
pub struct HttpMethodAttribute {
    pub method: String,
    pub uri: String,
}

/// Ghost image of an [`HttpMethodAttribute`].
#[verifier::ext_equal]
pub struct HttpMethodAttributeView {
    pub method: Seq<char>,
    pub uri: Seq<char>,
}

impl View for HttpMethodAttribute {
    type V = HttpMethodAttributeView;

    open spec fn view(&self) -> HttpMethodAttributeView {
        HttpMethodAttributeView { method: self.method@, uri: self.uri@ }
    }
}

/// What parsing an HTTP-method attribute yields: first the path-template
/// literal is demanded, then the verb segment after the leading `http`.
pub open spec fn http_attr_result(att: AttrView, method_name: Seq<char>) -> Result<
    HttpMethodAttributeView,
    GenErrorView,
> {
    if att.arg is None {
        Err(GenErrorView { kind: GenErrorKind::MissingPathTemplate, method: method_name })
    } else if att.segments.len() < 2 {
        Err(GenErrorView { kind: GenErrorKind::MissingVerbSegment, method: method_name })
    } else {
        Ok(HttpMethodAttributeView { method: att.segments[1], uri: att.arg->0 })
    }
}

impl HttpMethodAttribute {
    /// Parse the verb and path template out of an attribute already known to
    /// start with the `http` segment.
    pub fn try_from(att: &AttrDecl, method_name: &str) -> (r: Result<
        HttpMethodAttribute,
        GenError,
    >)
        requires
            att.segments@.len() >= 1,
        ensures
            r is Ok <==> http_attr_result(att@, method_name@) is Ok,
            r is Ok ==> r->Ok_0@ == http_attr_result(att@, method_name@)->Ok_0,
            r is Err ==> r->Err_0@ == http_attr_result(att@, method_name@)->Err_0,
    {
        match &att.arg {
            None => Err(
                GenError { kind: GenErrorKind::MissingPathTemplate, method: method_name.to_owned() },
            ),
            Some(uri) => {
                if att.segments.len() < 2 {
                    Err(
                        GenError {
                            kind: GenErrorKind::MissingVerbSegment,
                            method: method_name.to_owned(),
                        },
                    )
                } else {
                    let verb = att.segments[1].clone();
                    proof {
                        assert(att@.segments[1] == att.segments@[1]@);
                    }
                    Ok(HttpMethodAttribute { method: verb, uri: uri.clone() })
                }
            },
        }
    }
}

/// A method argument after classification by its marker attribute.
#[derive(Clone, Debug, PartialEq)]
pub enum HttpArg {
    /// Serialized as the JSON request body.
    JsonBody { arg: String },
    /// Substituted into the path template under its own name.
    Uri { arg: String },
    /// Attached to the query string under its own name.
    Query { name: String, arg: String },
}

/// Ghost image of an [`HttpArg`].
#[verifier::ext_equal]
pub enum HttpArgView {
    JsonBody { arg: Seq<char> },
    Uri { arg: Seq<char> },
    Query { name: Seq<char>, arg: Seq<char> },
}

impl View for HttpArg {
    type V = HttpArgView;

    open spec fn view(&self) -> HttpArgView {
        match self {
            HttpArg::JsonBody { arg } => HttpArgView::JsonBody { arg: arg@ },
            HttpArg::Uri { arg } => HttpArgView::Uri { arg: arg@ },
            HttpArg::Query { name, arg } => HttpArgView::Query { name: name@, arg: arg@ },
        }
    }
}

impl DeepView for HttpArg {
    type V = HttpArgView;

    open spec fn deep_view(&self) -> HttpArgView {
        self.view()
    }
}

/// How a parameter is classified: a `json` marker makes it the request body,
/// else a `query` marker makes it a query entry, else it substitutes into
/// the path.
pub open spec fn classify_param(p: ParamView) -> HttpArgView {
    if find_attr(p.attrs, "json"@) >= 0 {
        HttpArgView::JsonBody { arg: p.name }
    } else if find_attr(p.attrs, "query"@) >= 0 {
        HttpArgView::Query { name: p.name, arg: p.name }
    } else {
        HttpArgView::Uri { arg: p.name }
    }
}

/// The parameter as it appears in the emitted declaration: the marker that
/// classified it is removed, everything else stays.
pub open spec fn strip_param(p: ParamView) -> ParamView {
    let j = find_attr(p.attrs, "json"@);
    if j >= 0 {
        ParamView { name: p.name, attrs: p.attrs.remove(j) }
    } else {
        let q = find_attr(p.attrs, "query"@);
        if q >= 0 {
            ParamView { name: p.name, attrs: p.attrs.remove(q) }
        } else {
            p
        }
    }
}

impl HttpArg {
    /// Classify one parameter and strip the marker that classified it.
    pub fn parse(param: &mut ParamDecl) -> (r: HttpArg)
        ensures
            r@ == classify_param(old(param)@),
            final(param)@ == strip_param(old(param)@),
    {
        let json_att = get_att(&mut param.attrs, "json");
        match json_att {
            Some(_) => HttpArg::JsonBody { arg: param.name.clone() },
            None => {
                let query_att = get_att(&mut param.attrs, "query");
                match query_att {
                    Some(_) => HttpArg::Query {
                        name: param.name.clone(),
                        arg: param.name.clone(),
                    },
                    None => HttpArg::Uri { arg: param.name.clone() },
                }
            },
        }
    }
}

/// The request plan generated for one method: its name, the HTTP verb, the
/// path template, and its classified arguments in declaration order.
#[derive(Clone, Debug, PartialEq)]
pub struct MethodPlan {
    pub name: String,
    pub method: String,
    pub uri: String,
    pub args: Vec<HttpArg>,
}

/// Ghost image of a [`MethodPlan`].
#[verifier::ext_equal]
pub struct PlanView {
    pub name: Seq<char>,
    pub method: Seq<char>,
    pub uri: Seq<char>,
    pub args: Seq<HttpArgView>,
}

impl View for MethodPlan {
    type V = PlanView;

    open spec fn view(&self) -> PlanView {
        PlanView {
            name: self.name@,
            method: self.method@,
            uri: self.uri@,
            args: self.args.deep_view(),
        }
    }
}

impl DeepView for MethodPlan {
    type V = PlanView;

    open spec fn deep_view(&self) -> PlanView {
        self.view()
    }
}

/// The classifications of the first `i` parameters, in order.
pub open spec fn classify_upto(params: Seq<ParamView>, i: int) -> Seq<HttpArgView>
    decreases i,
{
    if i <= 0 {
        Seq::<HttpArgView>::empty()
    } else {
        classify_upto(params, i - 1).push(classify_param(params[i - 1]))
    }
}

/// The first `i` parameters with their markers stripped, in order.
pub open spec fn strip_upto(params: Seq<ParamView>, i: int) -> Seq<ParamView>
    decreases i,
{
    if i <= 0 {
        Seq::<ParamView>::empty()
    } else {
        strip_upto(params, i - 1).push(strip_param(params[i - 1]))
    }
}

/// Lengths and elements of the classification and stripping prefixes.
pub proof fn lemma_upto_index(params: Seq<ParamView>, i: int)
    requires
        0 <= i <= params.len(),
    ensures
        classify_upto(params, i).len() == i,
        strip_upto(params, i).len() == i,
        forall|k: int| 0 <= k < i ==> classify_upto(params, i)[k] == classify_param(params[k]),
        forall|k: int| 0 <= k < i ==> strip_upto(params, i)[k] == strip_param(params[k]),
    decreases i,
{
    if i > 0 {
        lemma_upto_index(params, i - 1);
    }
}

/// What transforming one method yields, checks in their fixed order: the
/// HTTP-method attribute, its contents, the absence of a default body; then
/// the plan built from the classified parameters.
pub open spec fn method_result(m: MethodView) -> Result<PlanView, GenErrorView> {
    let h = find_attr(m.attrs, "http"@);
    if h == -1 {
        Err(GenErrorView { kind: GenErrorKind::MissingHttpAttribute, method: m.name })
    } else {
        match http_attr_result(m.attrs[h], m.name) {
            Err(e) => Err(e),
            Ok(ha) => {
                if m.has_default_body {
                    Err(GenErrorView { kind: GenErrorKind::DefaultBody, method: m.name })
                } else {
                    Ok(
                        PlanView {
                            name: m.name,
                            method: ha.method,
                            uri: ha.uri,
                            args: classify_upto(m.params, m.params.len() as int),
                        },
                    )
                }
            },
        }
    }
}

/// The method as it appears in the emitted declaration when it transforms
/// successfully: the HTTP-method attribute and the parameter markers removed.
pub open spec fn stripped_method(m: MethodView) -> MethodView {
    MethodView {
        name: m.name,
        attrs: m.attrs.remove(find_attr(m.attrs, "http"@)),
        params: strip_upto(m.params, m.params.len() as int),
        has_default_body: m.has_default_body,
    }
}

/// The method as it stands when transformation fails: the HTTP-method
/// attribute is gone as soon as it was found, the parameters are untouched.
pub open spec fn failed_method(m: MethodView) -> MethodView {
    let h = find_attr(m.attrs, "http"@);
    if h == -1 {
        m
    } else {
        MethodView {
            name: m.name,
            attrs: m.attrs.remove(h),
            params: m.params,
            has_default_body: m.has_default_body,
        }
    }
}

/// Transform one method: validate its annotations, classify its parameters,
/// strip the compile-time-only markers, and return its request plan.
#[verifier::loop_isolation(false)]
pub fn build_method(m: &mut MethodDecl) -> (r: Result<MethodPlan, GenError>)
    ensures
        r is Ok <==> method_result(old(m)@) is Ok,
        r is Ok ==> r->Ok_0@ == method_result(old(m)@)->Ok_0 && final(m)@ == stripped_method(
            old(m)@,
        ),
        r is Err ==> r->Err_0@ == method_result(old(m)@)->Err_0 && final(m)@ == failed_method(
            old(m)@,
        ),
{
    let ghost m0 = old(m)@;
    let att = match get_att(&mut m.attrs, "http") {
        None => {
            return Err(
                GenError { kind: GenErrorKind::MissingHttpAttribute, method: m.name.clone() },
            );
        },
        Some(a) => a,
    };
    let ha = match HttpMethodAttribute::try_from(&att, m.name.as_str()) {
        Err(e) => {
            return Err(e);
        },
        Ok(h) => h,
    };
    if m.has_default_body {
        return Err(GenError { kind: GenErrorKind::DefaultBody, method: m.name.clone() });
    }
    let ghost p0 = m0.params;
    let mut args: Vec<HttpArg> = Vec::new();
    let mut i: usize = 0;
    proof {
        assert(args.deep_view() =~= classify_upto(p0, 0));
    }
    while i < m.params.len()
        invariant
            i <= p0.len(),
            m.params@.len() == p0.len(),
            m@.name == m0.name,
            m@.attrs == m0.attrs.remove(find_attr(m0.attrs, "http"@)),
            m@.has_default_body == m0.has_default_body,
            args.deep_view() == classify_upto(p0, i as int),
            forall|k: int| 0 <= k < i ==> m@.params[k] == strip_param(p0[k]),
            forall|k: int| i <= k < p0.len() ==> m@.params[k] == p0[k],
        decreases p0.len() - i,
    {
        let ghost mv0 = m@.params;
        proof {
            assert(m@.params[i as int] == m.params@[i as int]@);
        }
        let ghost pv = m.params@;
        let a = HttpArg::parse(&mut m.params[i]);
        args.push(a);
        proof {
            assert(m.params@ == pv.update(i as int, m.params@[i as int]));
            assert(m.params@[i as int]@ == strip_param(p0[i as int]));
            assert forall|k: int| 0 <= k < i + 1 implies m@.params[k] == strip_param(p0[k]) by {
                assert(m@.params[k] == m.params@[k]@);
                if k < i {
                    assert(m.params@[k] == pv[k]);
                    assert(mv0[k] == strip_param(p0[k]));
                    assert(mv0[k] == pv[k]@);
                }
            }
            assert forall|k: int| i + 1 <= k < p0.len() implies m@.params[k] == p0[k] by {
                assert(m@.params[k] == m.params@[k]@);
                assert(m.params@[k] == pv[k]);
                assert(mv0[k] == p0[k]);
                assert(mv0[k] == pv[k]@);
            }
        }
        i += 1;
        proof {
            assert(args.deep_view() =~= classify_upto(p0, i as int));
        }
    }
    proof {
        lemma_upto_index(p0, p0.len() as int);
        assert(m@.params =~= strip_upto(p0, p0.len() as int));
        assert(m@ =~~= stripped_method(m0));
        assert(args.deep_view() == classify_upto(p0, p0.len() as int));
    }
    Ok(MethodPlan { name: m.name.clone(), method: ha.method, uri: ha.uri, args })
}

/// The generated interface: the declaration with its markers stripped, the
/// name of the client type, and one request plan per method, in order.
#[derive(Clone, Debug, PartialEq)]
pub struct GeneratedInterface {
    pub decl: TraitDecl,
    pub client_name: String,
    pub methods: Vec<MethodPlan>,
}

/// Ghost image of a [`GeneratedInterface`].
#[verifier::ext_equal]
pub struct GeneratedView {
    pub decl: TraitView,
    pub client_name: Seq<char>,
    pub methods: Seq<PlanView>,
}

impl View for GeneratedInterface {
    type V = GeneratedView;

    open spec fn view(&self) -> GeneratedView {
        GeneratedView {
            decl: self.decl@,
            client_name: self.client_name@,
            methods: self.methods.deep_view(),
        }
    }
}

/// An item of the emitted declaration: methods stripped, the rest untouched.
pub open spec fn strip_item(it: ItemView) -> ItemView {
    match it {
        ItemView::Method(m) => ItemView::Method(stripped_method(m)),
        ItemView::Other => ItemView::Other,
    }
}

/// The first diagnostic among the first `i` items, earliest method first.
pub open spec fn first_error_upto(items: Seq<ItemView>, i: int) -> Option<GenErrorView>
    decreases i,
{
    if i <= 0 {
        None
    } else {
        match first_error_upto(items, i - 1) {
            Some(e) => Some(e),
            None => match items[i - 1] {
                ItemView::Method(m) => match method_result(m) {
                    Err(e) => Some(e),
                    Ok(_) => None,
                },
                ItemView::Other => None,
            },
        }
    }
}

/// The first diagnostic of the whole declaration, if any: first error wins,
/// nothing is aggregated across methods.
pub open spec fn first_error(items: Seq<ItemView>) -> Option<GenErrorView> {
    first_error_upto(items, items.len() as int)
}

/// The plans of the methods among the first `i` items, in declaration order.
pub open spec fn plans_upto(items: Seq<ItemView>, i: int) -> Seq<PlanView>
    decreases i,
{
    if i <= 0 {
        Seq::<PlanView>::empty()
    } else {
        let pre = plans_upto(items, i - 1);
        match items[i - 1] {
            ItemView::Method(m) => pre.push(method_result(m)->Ok_0),
            ItemView::Other => pre,
        }
    }
}

/// The first `i` items of the emitted declaration.
pub open spec fn strip_items_upto(items: Seq<ItemView>, i: int) -> Seq<ItemView>
    decreases i,
{
    if i <= 0 {
        Seq::<ItemView>::empty()
    } else {
        strip_items_upto(items, i - 1).push(strip_item(items[i - 1]))
    }
}

/// The attribute appended to the emitted declaration so that it supports
/// asynchronous trait dispatch.
pub open spec fn async_marker() -> AttrView {
    AttrView {
        segments: seq!["retroqwest"@, "async_trait"@, "async_trait"@],
        arg: None,
    }
}

/// An error among the first `i` items stays the first error of any longer
/// prefix.
pub proof fn lemma_first_error_persists(items: Seq<ItemView>, i: int, j: int)
    requires
        0 <= i <= j,
        first_error_upto(items, i) is Some,
    ensures
        first_error_upto(items, j) == first_error_upto(items, i),
    decreases j - i,
{
    if j > i {
        lemma_first_error_persists(items, i, j - 1);
    }
}

/// Transform a whole interface declaration: either every method transforms,
/// yielding the generated interface, or the first failing method aborts the
/// generation with its diagnostic.
#[verifier::loop_isolation(false)]
pub fn expand(def: TraitDecl) -> (r: Result<GeneratedInterface, GenError>)
    ensures
        r is Ok <==> first_error(def@.items) is None,
        r is Ok ==> ({
            let g = r->Ok_0@;
            &&& g.client_name == def@.name + "Client"@
            &&& g.decl.name == def@.name
            &&& g.decl.attrs == def@.attrs.push(async_marker())
            &&& g.decl.items == strip_items_upto(def@.items, def@.items.len() as int)
            &&& g.methods == plans_upto(def@.items, def@.items.len() as int)
        }),
        r is Err ==> r->Err_0@ == first_error(def@.items)->Some_0,
{
    let ghost items0 = def@.items;
    let TraitDecl { name, attrs, items } = def;
    let mut rest = items;
    let mut new_items: Vec<TraitItemDecl> = Vec::new();
    let mut methods: Vec<MethodPlan> = Vec::new();
    let ghost n = items0.len();
    proof {
        assert(rest.deep_view() =~= items0.skip(0));
        assert(new_items.deep_view() =~= strip_items_upto(items0, 0));
        assert(methods.deep_view() =~= plans_upto(items0, 0));
    }
    while rest.len() > 0
        invariant
            rest.deep_view().len() <= n,
            n == items0.len(),
            rest.deep_view() == items0.skip(n - rest.deep_view().len()),
            first_error_upto(items0, n - rest.deep_view().len()) is None,
            new_items.deep_view() == strip_items_upto(items0, n - rest.deep_view().len()),
            methods.deep_view() == plans_upto(items0, n - rest.deep_view().len()),
        decreases rest.deep_view().len(),
    {
        let ghost done = n - rest.deep_view().len();
        let ghost rest0 = rest.deep_view();
        let it = rest.remove(0);
        proof {
            assert(it.deep_view() == rest0[0]);
            assert(rest0[0] == items0[done]);
            assert(rest.deep_view() =~= rest0.skip(1));
            assert(rest0.skip(1) =~= items0.skip(done + 1));
            assert(rest.deep_view().len() == n - done - 1);
        }
        match it {
            TraitItemDecl::Method(mut m) => {
                let ghost m_pre = m@;
                proof {
                    assert(it@ == ItemView::Method(m_pre));
                }
                match build_method(&mut m) {
                    Err(e) => {
                        proof {
                            assert(items0[done] == ItemView::Method(m_pre));
                            assert(e@ == method_result(m_pre)->Err_0);
                            assert(first_error_upto(items0, done + 1) == Some(e@));
                            lemma_first_error_persists(items0, done + 1, n as int);
                            assert(first_error(items0) == Some(e@));
                        }
                        return Err(e);
                    },
                    Ok(plan) => {
                        methods.push(plan);
                        new_items.push(TraitItemDecl::Method(m));
                        proof {
                            assert(methods.deep_view() =~= plans_upto(items0, done + 1));
                            assert(new_items.deep_view() =~= strip_items_upto(items0, done + 1));
                        }
                    },
                }
            },
            TraitItemDecl::Other => {
                new_items.push(TraitItemDecl::Other);
                proof {
                    assert(methods.deep_view() =~= plans_upto(items0, done + 1));
                    assert(new_items.deep_view() =~= strip_items_upto(items0, done + 1));
                }
            },
        }
    }
    let mut client_name = name.clone();
    client_name.append("Client");
    let mut marker_segments: Vec<String> = Vec::new();
    marker_segments.push("retroqwest".to_owned());
    marker_segments.push("async_trait".to_owned());
    marker_segments.push("async_trait".to_owned());
    let marker = AttrDecl { segments: marker_segments, arg: None };
    proof {
        assert(marker@.segments =~= async_marker().segments);
        assert(marker@ =~= async_marker());
    }
    let mut new_attrs = attrs;
    new_attrs.push(marker);
    proof {
        assert(new_attrs.deep_view() =~= def@.attrs.push(async_marker()));
    }
    Ok(
        GeneratedInterface {
            decl: TraitDecl { name, attrs: new_attrs, items: new_items },
            client_name,
            methods,
        },
    )
}

/// A method carrying no HTTP-method annotation is rejected with the
/// missing-attribute diagnostic pointing at it.
pub proof fn lemma_missing_http_attribute_rejected(m: MethodView)
    requires
        forall|i: int| 0 <= i < m.attrs.len() ==> !attr_matches(#[trigger] m.attrs[i], "http"@),
    ensures
        method_result(m) == Err::<PlanView, GenErrorView>(
            GenErrorView { kind: GenErrorKind::MissingHttpAttribute, method: m.name },
        ),
{
    lemma_find_attr_none(m.attrs, "http"@);
}

/// A method with a default body is always rejected; when its HTTP-method
/// annotation is well-formed, the diagnostic is the default-body one.
pub proof fn lemma_default_body_rejected(m: MethodView)
    requires
        m.has_default_body,
    ensures
        method_result(m) is Err,
        ({
            let h = find_attr(m.attrs, "http"@);
            h >= 0 && http_attr_result(m.attrs[h], m.name) is Ok ==> method_result(m)
                == Err::<PlanView, GenErrorView>(
                GenErrorView { kind: GenErrorKind::DefaultBody, method: m.name },
            )
        }),
{
}

/// One failing method aborts generation of the whole interface: no partial
/// output is produced.
pub proof fn lemma_method_error_aborts(items: Seq<ItemView>, i: int)
    requires
        0 <= i < items.len(),
        items[i] is Method,
        method_result(items[i]->Method_0) is Err,
    ensures
        first_error(items) is Some,
{
    if first_error_upto(items, i) is Some {
        lemma_first_error_persists(items, i, items.len() as int);
    } else {
        assert(first_error_upto(items, i + 1) is Some);
        lemma_first_error_persists(items, i + 1, items.len() as int);
    }
}

} // verus!
