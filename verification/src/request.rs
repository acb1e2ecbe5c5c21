//! Building the request one method invocation must issue.
//!
//! Given the stored endpoint, a method's plan and the invocation's argument
//! values (one per planned argument, each already in its natural textual
//! form), the request is: the plan's verb; the endpoint followed immediately
//! by the substituted path template; the query entries of the query-marked
//! arguments in declaration order; and, as body, the value of the last
//! JSON-marked argument, later ones overwriting earlier ones.

use crate::template::{lemma_subst_no_bindings, subst, substitute};
use crate::transform::{HttpArg, HttpArgView, MethodPlan, PlanView};
use vstd::prelude::*;
use vstd::string::*;

verus! {

/// The request one invocation must issue, as plain data.
#[derive(Clone, Debug, PartialEq)]
pub struct RequestSpec {
    pub method: String,
    pub url: String,
    pub query: Vec<(String, String)>,
    pub body: Option<String>,
}

/// Ghost image of a [`RequestSpec`].
#[verifier::ext_equal]
pub struct RequestView {
    pub method: Seq<char>,
    pub url: Seq<char>,
    pub query: Seq<(Seq<char>, Seq<char>)>,
    pub body: Option<Seq<char>>,
}

impl View for RequestSpec {
    type V = RequestView;

    open spec fn view(&self) -> RequestView {
        RequestView {
            method: self.method@,
            url: self.url@,
            query: self.query.deep_view(),
            body: self.body.deep_view(),
        }
    }
}

/// The names of the path-substitution arguments among the first `i`, in
/// declaration order.
pub open spec fn uri_names_upto(args: Seq<HttpArgView>, i: int) -> Seq<Seq<char>>
    decreases i,
{
    if i <= 0 {
        Seq::<Seq<char>>::empty()
    } else {
        let pre = uri_names_upto(args, i - 1);
        match args[i - 1] {
            HttpArgView::Uri { arg } => pre.push(arg),
            _ => pre,
        }
    }
}

/// The values of the path-substitution arguments among the first `i`.
pub open spec fn uri_values_upto(args: Seq<HttpArgView>, vals: Seq<Seq<char>>, i: int) -> Seq<
    Seq<char>,
>
    decreases i,
{
    if i <= 0 {
        Seq::<Seq<char>>::empty()
    } else {
        let pre = uri_values_upto(args, vals, i - 1);
        match args[i - 1] {
            HttpArgView::Uri { arg } => pre.push(vals[i - 1]),
            _ => pre,
        }
    }
}

/// The query entries contributed by the first `i` arguments, in declaration
/// order: each query-marked argument under its own name.
pub open spec fn query_upto(args: Seq<HttpArgView>, vals: Seq<Seq<char>>, i: int) -> Seq<
    (Seq<char>, Seq<char>),
>
    decreases i,
{
    if i <= 0 {
        Seq::<(Seq<char>, Seq<char>)>::empty()
    } else {
        let pre = query_upto(args, vals, i - 1);
        match args[i - 1] {
            HttpArgView::Query { name, arg } => pre.push((name, vals[i - 1])),
            _ => pre,
        }
    }
}

/// The body contributed by the first `i` arguments: the value of the last
/// JSON-marked one, a later attachment overwriting an earlier one.
pub open spec fn body_upto(args: Seq<HttpArgView>, vals: Seq<Seq<char>>, i: int) -> Option<
    Seq<char>,
>
    decreases i,
{
    if i <= 0 {
        None
    } else {
        match args[i - 1] {
            HttpArgView::JsonBody { arg } => Some(vals[i - 1]),
            _ => body_upto(args, vals, i - 1),
        }
    }
}

/// The request an invocation of the planned method must issue.
pub open spec fn request_of(endpoint: Seq<char>, plan: PlanView, vals: Seq<Seq<char>>) -> RequestView {
    let n = plan.args.len() as int;
    RequestView {
        method: plan.method,
        url: endpoint + subst(
            plan.uri,
            uri_names_upto(plan.args, n),
            uri_values_upto(plan.args, vals, n),
        ),
        query: query_upto(plan.args, vals, n),
        body: body_upto(plan.args, vals, n),
    }
}

/// Build the request for one invocation: `values` holds one textual value
/// per planned argument, in declaration order.
#[verifier::loop_isolation(false)]
pub fn build_request(endpoint: &str, plan: &MethodPlan, values: &Vec<String>) -> (r: RequestSpec)
    requires
        values@.len() == plan.args@.len(),
    ensures
        r@ == request_of(endpoint@, plan@, values.deep_view()),
{
    let ghost av = plan@.args;
    let ghost vv = values.deep_view();
    let mut names: Vec<String> = Vec::new();
    let mut vals: Vec<String> = Vec::new();
    let mut query: Vec<(String, String)> = Vec::new();
    let mut body: Option<String> = None;
    let mut i: usize = 0;
    proof {
        assert(names.deep_view() =~= uri_names_upto(av, 0));
        assert(vals.deep_view() =~= uri_values_upto(av, vv, 0));
        assert(query.deep_view() =~= query_upto(av, vv, 0));
    }
    while i < plan.args.len()
        invariant
            i <= av.len(),
            names@.len() == vals@.len(),
            names.deep_view() == uri_names_upto(av, i as int),
            vals.deep_view() == uri_values_upto(av, vv, i as int),
            query.deep_view() == query_upto(av, vv, i as int),
            body.deep_view() == body_upto(av, vv, i as int),
        decreases av.len() - i,
    {
        proof {
            assert(av[i as int] == plan.args@[i as int]@);
            assert(vv[i as int] == values@[i as int]@);
        }
        match &plan.args[i] {
            HttpArg::Uri { arg } => {
                names.push(arg.clone());
                vals.push(values[i].clone());
                proof {
                    assert(names.deep_view() =~= uri_names_upto(av, i + 1));
                    assert(vals.deep_view() =~= uri_values_upto(av, vv, i + 1));
                }
            },
            HttpArg::Query { name, arg } => {
                query.push((name.clone(), values[i].clone()));
                proof {
                    assert(query.deep_view() =~= query_upto(av, vv, i + 1));
                }
            },
            HttpArg::JsonBody { arg } => {
                body = Some(values[i].clone());
            },
        }
        i += 1;
    }
    let path = substitute(plan.uri.as_str(), &names, &vals);
    let mut url = endpoint.to_owned();
    url.append(path.as_str());
    proof {
        assert(url@ == request_of(endpoint@, plan@, vv).url);
    }
    RequestSpec { method: plan.method.clone(), url, query, body }
}

/// A method with no parameters issues its request to the endpoint followed
/// immediately by its template, with no query entries and no body.
pub proof fn lemma_no_params_request(endpoint: Seq<char>, plan: PlanView, vals: Seq<Seq<char>>)
    requires
        plan.args.len() == 0,
    ensures
        request_of(endpoint, plan, vals).method == plan.method,
        request_of(endpoint, plan, vals).url == endpoint + plan.uri,
        request_of(endpoint, plan, vals).query.len() == 0,
        request_of(endpoint, plan, vals).body is None,
{
    assert(uri_names_upto(plan.args, 0) =~= Seq::<Seq<char>>::empty());
    assert(uri_values_upto(plan.args, vals, 0) =~= Seq::<Seq<char>>::empty());
    lemma_subst_no_bindings(plan.uri);
}

/// Two query-marked parameters are attached as two query entries, in
/// declaration order, each under its own name with its own value.
pub proof fn lemma_two_query_params(
    endpoint: Seq<char>,
    plan: PlanView,
    vals: Seq<Seq<char>>,
    n1: Seq<char>,
    n2: Seq<char>,
)
    requires
        plan.args.len() == 2,
        vals.len() == 2,
        plan.args[0] == (HttpArgView::Query { name: n1, arg: n1 }),
        plan.args[1] == (HttpArgView::Query { name: n2, arg: n2 }),
    ensures
        request_of(endpoint, plan, vals).query =~= seq![(n1, vals[0]), (n2, vals[1])],
        request_of(endpoint, plan, vals).body is None,
        request_of(endpoint, plan, vals).url == endpoint + plan.uri,
{
    assert(uri_names_upto(plan.args, 0) =~= Seq::<Seq<char>>::empty());
    assert(uri_names_upto(plan.args, 1) =~= Seq::<Seq<char>>::empty());
    assert(uri_names_upto(plan.args, 2) =~= Seq::<Seq<char>>::empty());
    assert(uri_values_upto(plan.args, vals, 0) =~= Seq::<Seq<char>>::empty());
    assert(uri_values_upto(plan.args, vals, 1) =~= Seq::<Seq<char>>::empty());
    assert(uri_values_upto(plan.args, vals, 2) =~= Seq::<Seq<char>>::empty());
    assert(query_upto(plan.args, vals, 0) =~= Seq::<(Seq<char>, Seq<char>)>::empty());
    assert(query_upto(plan.args, vals, 1) =~= seq![(n1, vals[0])]);
    assert(query_upto(plan.args, vals, 2) =~= seq![(n1, vals[0]), (n2, vals[1])]);
    assert(body_upto(plan.args, vals, 0) is None);
    assert(body_upto(plan.args, vals, 1) is None);
    assert(body_upto(plan.args, vals, 2) is None);
    lemma_subst_no_bindings(plan.uri);
}

/// A path parameter, a query parameter and a JSON parameter together: the
/// path value substitutes into the template, the query entry carries the
/// query value, and the body is the JSON value.
pub proof fn lemma_mixed_params(
    endpoint: Seq<char>,
    plan: PlanView,
    vals: Seq<Seq<char>>,
    p: Seq<char>,
    q: Seq<char>,
    b: Seq<char>,
)
    requires
        plan.args.len() == 3,
        vals.len() == 3,
        plan.args[0] == (HttpArgView::Uri { arg: p }),
        plan.args[1] == (HttpArgView::Query { name: q, arg: q }),
        plan.args[2] == (HttpArgView::JsonBody { arg: b }),
    ensures
        request_of(endpoint, plan, vals).url == endpoint + subst(plan.uri, seq![p], seq![vals[0]]),
        request_of(endpoint, plan, vals).query =~= seq![(q, vals[1])],
        request_of(endpoint, plan, vals).body == Some(vals[2]),
{
    assert(uri_names_upto(plan.args, 0) =~= Seq::<Seq<char>>::empty());
    assert(uri_names_upto(plan.args, 1) =~= seq![p]);
    assert(uri_names_upto(plan.args, 2) =~= seq![p]);
    assert(uri_names_upto(plan.args, 3) =~= seq![p]);
    assert(uri_values_upto(plan.args, vals, 0) =~= Seq::<Seq<char>>::empty());
    assert(uri_values_upto(plan.args, vals, 1) =~= seq![vals[0]]);
    assert(uri_values_upto(plan.args, vals, 2) =~= seq![vals[0]]);
    assert(uri_values_upto(plan.args, vals, 3) =~= seq![vals[0]]);
    assert(query_upto(plan.args, vals, 0) =~= Seq::<(Seq<char>, Seq<char>)>::empty());
    assert(query_upto(plan.args, vals, 1) =~= Seq::<(Seq<char>, Seq<char>)>::empty());
    assert(query_upto(plan.args, vals, 2) =~= seq![(q, vals[1])]);
    assert(query_upto(plan.args, vals, 3) =~= seq![(q, vals[1])]);
}

} // verus!
