//! Requests and the query parameters they are built from.

use crate::text::{decimal, join, joined, texts, to_decimal};
use vstd::prelude::*;
use vstd::string::StringExecFns;

verus! {

/// One query parameter of an operation: its name, and its value where the
/// caller gave one.
#[derive(Debug, Clone, PartialEq, Eq)]
pub struct Param {
    pub name: String,
    pub value: Option<String>,
}

/// The mathematical value of a [`Param`].
pub struct ParamView {
    pub name: Seq<char>,
    pub value: Option<Seq<char>>,
}

impl View for Param {
    type V = ParamView;

    open spec fn view(&self) -> ParamView {
        ParamView {
            name: self.name@,
            value: match self.value {
                Some(v) => Some(v@),
                None => None,
            },
        }
    }
}

/// A parameter whose value is a text, if present.
pub open spec fn text_param(name: Seq<char>, value: Option<&str>) -> ParamView {
    ParamView {
        name,
        value: match value {
            Some(v) => Some(v@),
            None => None,
        },
    }
}

/// A parameter that is always sent.
pub open spec fn required_param(name: Seq<char>, value: Seq<char>) -> ParamView {
    ParamView { name, value: Some(value) }
}

/// A parameter whose value is a number, sent in plain decimal if present.
pub open spec fn number_param(name: Seq<char>, value: Option<i64>) -> ParamView {
    ParamView {
        name,
        value: match value {
            Some(n) => Some(decimal(n as int)),
            None => None,
        },
    }
}

/// A parameter whose value is a list, sent with commas between its items if
/// present.
pub open spec fn list_param(name: Seq<char>, value: Option<&[&str]>) -> ParamView {
    ParamView {
        name,
        value: match value {
            Some(items) => Some(joined(texts(items@), seq![','])),
            None => None,
        },
    }
}

/// The mathematical value of a [`Params`]: the parameters in order.
pub open spec fn param_views(params: Seq<Param>) -> Seq<ParamView> {
    Seq::new(params.len(), |i: int| params[i]@)
}

/// The query parameters of one operation, in the order in which they are
/// sent: the mapping from each parameter's name to its value, if it has one.
#[derive(Debug, Clone, PartialEq, Eq)]
pub struct Params {
    pub items: Vec<Param>,
}

impl View for Params {
    type V = Seq<ParamView>;

    open spec fn view(&self) -> Seq<ParamView> {
        param_views(self.items@)
    }
}

impl Params {
    /// No parameters.
    pub fn new() -> (r: Params)
        ensures
            r@ == Seq::<ParamView>::empty(),
    {
        let r = Params { items: Vec::new() };
        assert(r@ =~= Seq::empty());
        r
    }

    fn with(self, param: Param) -> (r: Params)
        ensures
            r@ == self@.push(param@),
    {
        let mut params = self;
        params.items.push(param);
        assert(params@ =~= self@.push(param@));
        params
    }

    /// Adds a parameter with a textual value, sent only if `value` is present.
    pub fn text(self, name: &str, value: Option<&str>) -> (r: Params)
        ensures
            r@ == self@.push(text_param(name@, value)),
    {
        let value = match value {
            Some(v) => Some(String::from_str(v)),
            None => None,
        };
        self.with(Param { name: String::from_str(name), value })
    }

    /// Adds a parameter that is always sent.
    pub fn required(self, name: &str, value: &str) -> (r: Params)
        ensures
            r@ == self@.push(required_param(name@, value@)),
    {
        self.with(Param { name: String::from_str(name), value: Some(String::from_str(value)) })
    }

    /// Adds a parameter with a numeric value, sent in plain decimal and only
    /// if `value` is present.
    pub fn number(self, name: &str, value: Option<i64>) -> (r: Params)
        ensures
            r@ == self@.push(number_param(name@, value)),
    {
        let value = match value {
            Some(n) => Some(to_decimal(n)),
            None => None,
        };
        self.with(Param { name: String::from_str(name), value })
    }

    /// Adds a parameter whose value is a list of names, sent with commas
    /// between them and only if `value` is present.
    pub fn list(self, name: &str, value: Option<&[&str]>) -> (r: Params)
        ensures
            r@ == self@.push(list_param(name@, value)),
    {
        let value = match value {
            Some(items) => {
                proof {
                    reveal_strlit(",");
                    assert(","@ =~= seq![',']);
                }
                Some(join(items, ","))
            },
            None => None,
        };
        self.with(Param { name: String::from_str(name), value })
    }
}

/// The views of a sequence of name and value pairs.
pub open spec fn pair_views(pairs: Seq<(String, String)>) -> Seq<(Seq<char>, Seq<char>)> {
    Seq::new(pairs.len(), |i: int| (pairs[i].0@, pairs[i].1@))
}

/// The query pairs that a list of parameters gives: one pair for each
/// parameter that has a value, in the order of the list.
pub open spec fn present(params: Seq<ParamView>) -> Seq<(Seq<char>, Seq<char>)>
    decreases params.len(),
{
    if params.len() == 0 {
        Seq::empty()
    } else {
        let before = present(params.drop_last());
        match params.last().value {
            Some(v) => before.push((params.last().name, v)),
            None => before,
        }
    }
}

/// A GET request that is ready to be sent: the full URL without a query
/// string, the query pairs in the order in which they are to be appended,
/// and the headers.
#[derive(Debug, Clone, PartialEq, Eq)]
pub struct Request {
    pub url: String,
    pub query: Vec<(String, String)>,
    pub headers: Vec<(String, String)>,
}

/// The mathematical value of a [`Request`].
pub struct RequestView {
    pub url: Seq<char>,
    pub query: Seq<(Seq<char>, Seq<char>)>,
    pub headers: Seq<(Seq<char>, Seq<char>)>,
}

impl View for Request {
    type V = RequestView;

    open spec fn view(&self) -> RequestView {
        RequestView {
            url: self.url@,
            query: pair_views(self.query@),
            headers: pair_views(self.headers@),
        }
    }
}

impl Request {
    /// A request for `url` with no query and no headers.
    pub fn get(url: String) -> (r: Request)
        ensures
            r@ == (RequestView { url: url@, query: Seq::empty(), headers: Seq::empty() }),
    {
        let r = Request { url, query: Vec::new(), headers: Vec::new() };
        assert(r@.query =~= Seq::empty());
        assert(r@.headers =~= Seq::empty());
        r
    }

    /// Appends to the query one pair for each parameter of `params` that has
    /// a value, in order, and none for the others.
    pub fn query(self, params: &Params) -> (r: Request)
        ensures
            r@ == (RequestView { query: self@.query + present(params@), ..self@ }),
    {
        let ghost all = params@;
        let params = &params.items;
        let mut request = self;
        let mut i: usize = 0;
        while i < params.len()
            invariant
                i <= params.len(),
                all == param_views(params@),
                request@.url == self@.url,
                request@.headers == self@.headers,
                request@.query == self@.query + present(all.take(i as int)),
            decreases params.len() - i,
        {
            let ghost before = request@.query;
            let param = &params[i];
            proof {
                assert(all.take(i + 1).drop_last() =~= all.take(i as int));
            }
            match &param.value {
                Some(v) => {
                    request.query.push((param.name.clone(), v.clone()));
                    assert(request@.query =~= before.push((param.name@, v@)));
                },
                None => {},
            }
            i += 1;
        }
        assert(all.take(i as int) =~= all);
        request
    }

    /// Appends the header `name: value`.
    pub fn header(self, name: &str, value: &str) -> (r: Request)
        ensures
            r@ == (RequestView { headers: self@.headers.push((name@, value@)), ..self@ }),
    {
        let mut request = self;
        request.headers.push((String::from_str(name), String::from_str(value)));
        assert(request@.headers =~= self@.headers.push((name@, value@)));
        request
    }
}

/// The query of two lists of parameters, one after the other, is the query of
/// the first followed by the query of the second: the pairs keep the order
/// of their parameters.
pub proof fn lemma_present_keeps_order(first: Seq<ParamView>, second: Seq<ParamView>)
    ensures
        present(first + second) == present(first) + present(second),
    decreases second.len(),
{
    if second.len() == 0 {
        assert(first + second =~= first);
    } else {
        lemma_present_keeps_order(first, second.drop_last());
        assert((first + second).drop_last() =~= first + second.drop_last());
    }
}

/// Every pair of the query stems from a parameter of that name that has
/// that very value: nothing is sent for a parameter without a value, and
/// no value is altered.
pub proof fn lemma_sent_pair_was_given(params: Seq<ParamView>, j: int)
    requires
        0 <= j < present(params).len(),
    ensures
        exists|i: int|
            0 <= i < params.len() && #[trigger] params[i] == (ParamView {
                name: present(params)[j].0,
                value: Some(present(params)[j].1),
            }),
    decreases params.len(),
{
    let before = present(params.drop_last());
    if j < before.len() {
        lemma_sent_pair_was_given(params.drop_last(), j);
        let i = choose|i: int|
            0 <= i < params.drop_last().len() && #[trigger] params.drop_last()[i] == (ParamView {
                name: before[j].0,
                value: Some(before[j].1),
            });
        assert(params[i] == params.drop_last()[i]);
    } else {
        assert(params[params.len() - 1] == params.last());
    }
}

/// Every parameter that has a value is sent, under its name and with that
/// very value.
pub proof fn lemma_given_value_is_sent(params: Seq<ParamView>, i: int)
    requires
        0 <= i < params.len(),
        params[i].value is Some,
    ensures
        present(params).contains((params[i].name, params[i].value->0)),
    decreases params.len(),
{
    let before = present(params.drop_last());
    if i == params.len() - 1 {
        assert(present(params)[before.len() as int] == (params[i].name, params[i].value->0));
    } else {
        lemma_given_value_is_sent(params.drop_last(), i);
        let j = choose|j: int|
            0 <= j < before.len() && before[j] == (params[i].name, params[i].value->0);
        assert(present(params)[j] == before[j]);
    }
}

/// A name whose parameters all lack a value does not occur in the query.
pub proof fn lemma_absent_name_is_omitted(params: Seq<ParamView>, name: Seq<char>)
    requires
        forall|i: int|
            0 <= i < params.len() && (#[trigger] params[i]).name == name ==> params[i].value
                is None,
    ensures
        forall|j: int| 0 <= j < present(params).len() ==> (#[trigger] present(params)[j]).0 != name,
{
    assert forall|j: int| 0 <= j < present(params).len() implies (#[trigger] present(
        params,
    )[j]).0 != name by {
        lemma_sent_pair_was_given(params, j);
    }
}

} // verus!
