//! The vocabulary of a request as the admin handlers see it: its HTTP
//! method, its named parameters and the errors a handler answers with.
use vstd::prelude::*;

verus! {

/// Status of a request refused for what the client sent.
pub const BAD_REQUEST: u16 = 400;

/// Status of a request that failed on the server's side.
pub const INTERNAL_SERVER_ERROR: u16 = 500;

/// The HTTP method of a request.
#[derive(Clone, Copy, Debug, PartialEq, Eq, Structural)]
pub enum HttpMethod {
    Get,
    Post,
    Put,
    Delete,
    Unknown,
}

/// The value of a named request parameter: one the client sent (possibly
/// without a value), or one the server injected itself.
#[derive(Clone, Debug, PartialEq, Eq)]
pub enum ParamValue {
    Client(Option<String>),
    Internal(String),
}

/// A parameter value with its text taken as a sequence of characters.
pub enum ParamView {
    Client(Option<Seq<char>>),
    Internal(Seq<char>),
}

impl View for ParamValue {
    type V = ParamView;

    open spec fn view(&self) -> ParamView {
        match self {
            ParamValue::Client(Some(s)) => ParamView::Client(Some(s@)),
            ParamValue::Client(None) => ParamView::Client(None),
            ParamValue::Internal(s) => ParamView::Internal(s@),
        }
    }
}

/// An error that a request is answered with: one the handler expected, with
/// its status and message, or any other failure, with the context in which
/// it arose and the message of its cause.
#[derive(Clone, Debug, PartialEq, Eq)]
pub enum RequestError {
    Expected(u16, String),
    Other { context: String, cause: String },
}

/// A request error with its texts taken as sequences of characters.
pub enum RequestErrorView {
    Expected(u16, Seq<char>),
    Other { context: Seq<char>, cause: Seq<char> },
}

impl View for RequestError {
    type V = RequestErrorView;

    open spec fn view(&self) -> RequestErrorView {
        match self {
            RequestError::Expected(status, message) => RequestErrorView::Expected(*status, message@),
            RequestError::Other { context, cause } => RequestErrorView::Other {
                context: context@,
                cause: cause@,
            },
        }
    }
}

/// The map that a list of parameter entries stands for; a later entry for a
/// key wins over an earlier one.
pub open spec fn params_map(s: Seq<(Seq<char>, ParamView)>) -> Map<Seq<char>, ParamView>
    decreases s.len(),
{
    if s.len() == 0 {
        Map::empty()
    } else {
        params_map(s.drop_last()).insert(s.last().0, s.last().1)
    }
}

/// No key occurs twice in the list.
pub open spec fn distinct_keys(s: Seq<(Seq<char>, ParamView)>) -> bool {
    forall|i: int, j: int| 0 <= i < s.len() && 0 <= j < s.len() && i != j ==> s[i].0 != s[j].0
}

/// The named parameters of a request, one value per name.
#[derive(Clone, Debug)]
pub struct RequestParams {
    entries: Vec<(String, ParamValue)>,
}

impl RequestParams {
    /// The entries, with their texts taken as sequences of characters.
    pub closed spec fn entries_view(&self) -> Seq<(Seq<char>, ParamView)> {
        self.entries@.map_values(|e: (String, ParamValue)| (e.0@, e.1@))
    }

    /// No name is held twice.
    pub closed spec fn wf(&self) -> bool {
        distinct_keys(self.entries_view())
    }
}

impl View for RequestParams {
    type V = Map<Seq<char>, ParamView>;

    closed spec fn view(&self) -> Map<Seq<char>, ParamView> {
        params_map(self.entries_view())
    }
}

proof fn lemma_params_map_domain(s: Seq<(Seq<char>, ParamView)>, k: Seq<char>)
    ensures
        params_map(s).contains_key(k) <==> exists|i: int| 0 <= i < s.len() && s[i].0 == k,
    decreases s.len(),
{
    if s.len() > 0 {
        let init = s.drop_last();
        lemma_params_map_domain(init, k);
        if params_map(s).contains_key(k) && s.last().0 != k {
            let i = choose|i: int| 0 <= i < init.len() && init[i].0 == k;
            assert(s[i] == init[i]);
        }
        if exists|i: int| 0 <= i < s.len() && s[i].0 == k {
            let i = choose|i: int| 0 <= i < s.len() && s[i].0 == k;
            if i < s.len() - 1 {
                assert(init[i] == s[i]);
            }
        }
    }
}

proof fn lemma_params_map_value(s: Seq<(Seq<char>, ParamView)>, i: int)
    requires
        distinct_keys(s),
        0 <= i < s.len(),
    ensures
        params_map(s).contains_key(s[i].0),
        params_map(s)[s[i].0] == s[i].1,
    decreases s.len(),
{
    if i < s.len() - 1 {
        let init = s.drop_last();
        assert(init[i] == s[i]);
        assert(distinct_keys(init)) by {
            assert forall|a: int, b: int|
                0 <= a < init.len() && 0 <= b < init.len() && a != b implies init[a].0 != init[b].0 by {
                assert(init[a] == s[a] && init[b] == s[b]);
            }
        }
        lemma_params_map_value(init, i);
        assert(s[i].0 != s[s.len() - 1].0);
    }
}

proof fn lemma_params_map_update(s: Seq<(Seq<char>, ParamView)>, i: int, v: ParamView)
    requires
        distinct_keys(s),
        0 <= i < s.len(),
    ensures
        distinct_keys(s.update(i, (s[i].0, v))),
        params_map(s.update(i, (s[i].0, v))) == params_map(s).insert(s[i].0, v),
    decreases s.len(),
{
    let t = s.update(i, (s[i].0, v));
    assert forall|a: int, b: int| 0 <= a < t.len() && 0 <= b < t.len() && a != b implies t[a].0
        != t[b].0 by {
        assert(t[a].0 == s[a].0 && t[b].0 == s[b].0);
    }
    if i == s.len() - 1 {
        assert(t.drop_last() =~= s.drop_last());
    } else {
        let init = s.drop_last();
        assert(distinct_keys(init)) by {
            assert forall|a: int, b: int|
                0 <= a < init.len() && 0 <= b < init.len() && a != b implies init[a].0 != init[b].0 by {
                assert(init[a] == s[a] && init[b] == s[b]);
            }
        }
        lemma_params_map_update(init, i, v);
        assert(t.drop_last() =~= init.update(i, (init[i].0, v)));
        assert(s[i].0 != s.last().0);
        assert(params_map(t) =~= params_map(s).insert(s[i].0, v));
    }
}

impl RequestParams {
    /// A request without parameters.
    pub fn new() -> (res: RequestParams)
        ensures
            res.wf(),
            res@ == Map::<Seq<char>, ParamView>::empty(),
    {
        let res = RequestParams { entries: Vec::new() };
        assert(res.entries_view() =~= Seq::<(Seq<char>, ParamView)>::empty());
        res
    }

    /// The number of parameters.
    pub fn len(&self) -> (res: usize)
        requires
            self.wf(),
        ensures
            res == self@.dom().len(),
    {
        proof {
            self.lemma_dom_len();
        }
        self.entries.len()
    }

    proof fn lemma_dom_len(&self)
        requires
            self.wf(),
        ensures
            self@.dom().finite(),
            self@.dom().len() == self.entries@.len(),
        decreases self.entries@.len(),
    {
        lemma_dom_len_of(self.entries_view());
    }

    /// The value of the parameter named `key`, if the request has one.
    pub fn get(&self, key: &String) -> (res: Option<&ParamValue>)
        requires
            self.wf(),
        ensures
            res is Some <==> self@.contains_key(key@),
            res matches Some(v) ==> v@ == self@[key@],
    {
        let ghost s = self.entries_view();
        let mut i: usize = 0;
        while i < self.entries.len()
            invariant
                s == self.entries_view(),
                self.wf(),
                i <= self.entries@.len(),
                forall|j: int| 0 <= j < i ==> s[j].0 != key@,
            decreases self.entries@.len() - i,
        {
            if self.entries[i].0 == *key {
                proof {
                    lemma_params_map_value(s, i as int);
                }
                return Some(&self.entries[i].1);
            }
            i = i + 1;
        }
        proof {
            lemma_params_map_domain(s, key@);
        }
        None
    }

    /// Sets the parameter named `key` to `value`, and returns the value it
    /// held before, if any.
    pub fn insert(&mut self, key: String, value: ParamValue) -> (res: Option<ParamValue>)
        requires
            old(self).wf(),
        ensures
            final(self).wf(),
            final(self)@ == old(self)@.insert(key@, value@),
            res is Some <==> old(self)@.contains_key(key@),
            res matches Some(v) ==> v@ == old(self)@[key@],
    {
        let ghost s = self.entries_view();
        let mut i: usize = 0;
        while i < self.entries.len()
            invariant
                s == self.entries_view(),
                s == old(self).entries_view(),
                self.wf(),
                i <= self.entries@.len(),
                forall|j: int| 0 <= j < i ==> s[j].0 != key@,
            decreases self.entries@.len() - i,
        {
            if self.entries[i].0 == key {
                proof {
                    lemma_params_map_value(s, i as int);
                    lemma_params_map_update(s, i as int, value@);
                }
                let old_entry = self.entries.remove(i);
                self.entries.insert(i, (key, value));
                assert(self.entries_view() =~= s.update(i as int, (s[i as int].0, value@)));
                return Some(old_entry.1);
            }
            i = i + 1;
        }
        proof {
            lemma_params_map_domain(s, key@);
        }
        self.entries.push((key, value));
        assert(self.entries_view() =~= s.push((key@, value@)));
        assert(self.entries_view().drop_last() =~= s);
        None
    }
}

proof fn lemma_dom_len_of(s: Seq<(Seq<char>, ParamView)>)
    requires
        distinct_keys(s),
    ensures
        params_map(s).dom().finite(),
        params_map(s).dom().len() == s.len(),
    decreases s.len(),
{
    if s.len() > 0 {
        let init = s.drop_last();
        assert(distinct_keys(init)) by {
            assert forall|a: int, b: int|
                0 <= a < init.len() && 0 <= b < init.len() && a != b implies init[a].0 != init[b].0 by {
                assert(init[a] == s[a] && init[b] == s[b]);
            }
        }
        lemma_dom_len_of(init);
        lemma_params_map_domain(init, s.last().0);
        if params_map(init).contains_key(s.last().0) {
            let i = choose|i: int| 0 <= i < init.len() && init[i].0 == s.last().0;
            assert(s[i] == init[i]);
        }
    }
}

/// Setting a parameter makes it read back as the value set, and leaves
/// every other parameter as it was.
pub proof fn lemma_get_after_insert(
    params: Map<Seq<char>, ParamView>,
    key: Seq<char>,
    value: ParamView,
    other: Seq<char>,
)
    requires
        other != key,
    ensures
        params.insert(key, value).contains_key(key),
        params.insert(key, value)[key] == value,
        params.insert(key, value).contains_key(other) == params.contains_key(other),
        params.contains_key(other) ==> params.insert(key, value)[other] == params[other],
{
}

} // verus!
