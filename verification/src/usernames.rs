//! Resolving many database identifiers to logins, one hundred to a query.

use std::collections::HashMap;
use vstd::prelude::*;
use crate::error::{ApiError, ApiErrorView};
use crate::graphql::{graphql_outcome, graphql_result, GraphCall, GraphResult, GRAPHQL_PATH};
use crate::node_id::{node_id, user_node_id};
use crate::reply::Reply;
use crate::request::{prepared, GitHubApi, Method, RequestView};

verus! {

broadcast use vstd::std_specs::hash::group_hash_axioms;

/// The largest number of identifiers that one query asks for.
pub const CHUNK_SIZE: usize = 100;

/// The query that asks for the database identifier and the login of each
/// node that is a user.
pub const USERNAMES_QUERY: &'static str =
    "query($ids: [ID!]!) { nodes(ids: $ids) { ... on User { databaseId login } } }";

/// A user as the query for logins returns it.
#[derive(Debug, PartialEq, Eq)]
pub struct UserNode {
    /// The database identifier.
    pub database_id: usize,
    /// The login.
    pub login: String,
}

/// The data of a query for nodes: one entry for each identifier asked for,
/// in the order asked, absent where there is no such node.
#[derive(Debug, PartialEq, Eq)]
pub struct GraphNodes<T> {
    pub nodes: Vec<Option<T>>,
}

/// The variables of the query for logins.
#[derive(Debug, PartialEq, Eq)]
pub struct NodeIds {
    /// The node identifiers asked for.
    pub ids: Vec<String>,
}

/// The reply to one query for logins.
pub type NodesReply = Reply<GraphResult<GraphNodes<UserNode>>>;

/// The number of queries that `len` identifiers take.
pub open spec fn chunk_count(len: nat) -> nat {
    (len + CHUNK_SIZE - 1) as nat / CHUNK_SIZE as nat
}

/// The identifiers of the query with index `k`: the `k`-th window of one
/// hundred, cut off where the list ends.
pub open spec fn chunk(ids: Seq<usize>, k: nat) -> Seq<usize> {
    if k * CHUNK_SIZE >= ids.len() {
        Seq::empty()
    } else if (k + 1) * CHUNK_SIZE >= ids.len() {
        ids.skip(k * CHUNK_SIZE)
    } else {
        ids.subrange(k * CHUNK_SIZE, (k + 1) * CHUNK_SIZE)
    }
}

/// The first `count` windows of `ids`, in order.
pub open spec fn first_chunks(ids: Seq<usize>, count: nat) -> Seq<Seq<usize>> {
    Seq::new(count, |k: int| chunk(ids, k as nat))
}

/// The windows that `ids` is split into, in order.
pub open spec fn chunks(ids: Seq<usize>) -> Seq<Seq<usize>> {
    first_chunks(ids, chunk_count(ids.len()))
}

/// The node identifiers of the database identifiers `ids`, in order.
pub open spec fn node_ids(ids: Seq<usize>) -> Seq<Seq<char>> {
    Seq::new(ids.len(), |i: int| node_id(ids[i] as nat))
}

/// The texts of `strings` as sequences of characters.
pub open spec fn texts(strings: Seq<String>) -> Seq<Seq<char>> {
    Seq::new(strings.len(), |i: int| strings[i]@)
}

/// The logins of `names` as sequences of characters.
pub open spec fn logins(names: Map<usize, String>) -> Map<usize, Seq<char>> {
    names.map_values(|login: String| login@)
}

/// The logins `names` after the nodes `nodes` have been taken in, in order:
/// a node that is present puts its login under its database identifier, in
/// place of what was there, and an absent one changes nothing.
pub open spec fn merged(names: Map<usize, Seq<char>>, nodes: Seq<Option<UserNode>>) -> Map<
    usize,
    Seq<char>,
>
    decreases nodes.len(),
{
    if nodes.len() == 0 {
        names
    } else {
        let before = merged(names, nodes.drop_last());
        match nodes.last() {
            Some(node) => before.insert(node.database_id, node.login@),
            None => before,
        }
    }
}

/// A lookup that waits for the reply to a query.
pub struct LookupView {
    /// The credential of the client.
    pub token: Option<Seq<char>>,
    /// All the identifiers asked for.
    pub ids: Seq<usize>,
    /// The index of the query that waits for its reply.
    pub pending: nat,
    /// The logins found by the queries before it.
    pub names: Map<usize, Seq<char>>,
}

/// A query for logins that is ready to be sent.
pub struct CallView {
    pub request: RequestView,
    pub query: Seq<char>,
    pub ids: Seq<Seq<char>>,
}

/// Where a lookup stands: a query is to be sent, or the lookup has ended.
pub enum ProgressView {
    Send(LookupView, CallView),
    Done(Result<Map<usize, Seq<char>>, ApiErrorView>),
}

/// What a lookup does next when the queries before `state.pending` have
/// been answered: it ends with the logins found where no query is left,
/// and else prepares the query with that index, and ends with the failure
/// where that cannot be done.
pub open spec fn proceed(state: LookupView) -> ProgressView {
    if state.pending >= chunk_count(state.ids.len()) {
        ProgressView::Done(Ok(state.names))
    } else {
        match prepared(state.token, true, Method::Post, GRAPHQL_PATH@) {
            Ok(request) => ProgressView::Send(
                state,
                CallView {
                    request,
                    query: USERNAMES_QUERY@,
                    ids: node_ids(chunk(state.ids, state.pending)),
                },
            ),
            Err(error) => ProgressView::Done(Err(error)),
        }
    }
}

/// How a lookup of `ids` begins for a client with the credential `token`.
pub open spec fn started(token: Option<Seq<char>>, ids: Seq<usize>) -> ProgressView {
    proceed(LookupView { token, ids, pending: 0, names: Map::empty() })
}

/// How a lookup goes on from `state` when `reply` comes back for the query
/// that waits: a failed query ends it with that failure, and the logins
/// found before are dropped; an answered one has its nodes taken in, and
/// the lookup proceeds to the next query.
pub open spec fn resumed(state: LookupView, reply: NodesReply) -> ProgressView {
    match graphql_outcome(reply) {
        Ok(answer) => proceed(
            LookupView {
                token: state.token,
                ids: state.ids,
                pending: state.pending + 1,
                names: merged(state.names, answer.nodes@),
            },
        ),
        Err(error) => ProgressView::Done(Err(error)),
    }
}

/// Where a lookup that began as `start` stands after the replies
/// `replies` have come back, in order, each for the query that waited. A
/// lookup that has ended stays as it ended.
pub open spec fn after_replies(start: ProgressView, replies: Seq<NodesReply>) -> ProgressView
    decreases replies.len(),
{
    if replies.len() == 0 {
        start
    } else {
        match after_replies(start, replies.drop_last()) {
            ProgressView::Send(state, _) => resumed(state, replies.last()),
            ProgressView::Done(result) => ProgressView::Done(result),
        }
    }
}

/// The nodes that an answered reply holds; a failed reply holds none.
pub open spec fn reply_nodes(reply: NodesReply) -> Seq<Option<UserNode>> {
    match graphql_outcome(reply) {
        Ok(answer) => answer.nodes@,
        Err(_) => Seq::empty(),
    }
}

/// The logins found once the nodes of `replies` have been taken in, reply
/// by reply.
pub open spec fn names_after(replies: Seq<NodesReply>) -> Map<usize, Seq<char>>
    decreases replies.len(),
{
    if replies.len() == 0 {
        Map::empty()
    } else {
        merged(names_after(replies.drop_last()), reply_nodes(replies.last()))
    }
}

/// True where the node at `i` is present and has the database identifier
/// `id`.
pub open spec fn is_node_of(nodes: Seq<Option<UserNode>>, i: int, id: usize) -> bool {
    0 <= i < nodes.len() && nodes[i] is Some && nodes[i]->Some_0.database_id == id
}

/// True where some node is present with the database identifier `id`.
pub open spec fn has_node_of(nodes: Seq<Option<UserNode>>, id: usize) -> bool {
    exists|i: int| is_node_of(nodes, i, id)
}

/// True where the node at `i` is the last that is present with the database
/// identifier `id`.
pub open spec fn is_last_node_of(nodes: Seq<Option<UserNode>>, i: int, id: usize) -> bool {
    is_node_of(nodes, i, id) && forall|j: int| i < j < nodes.len() ==> !is_node_of(nodes, j, id)
}

/// Splitting keeps the list: the windows of `ids`, joined in order, are
/// `ids` again, and each window holds at least one identifier and at most
/// one hundred.
pub proof fn lemma_chunks_partition(ids: Seq<usize>)
    ensures
        chunks(ids).flatten() == ids,
        forall|k: int|
            0 <= k < chunks(ids).len() ==> 1 <= (#[trigger] chunks(ids)[k]).len() <= CHUNK_SIZE,
{
    lemma_first_chunks(ids, chunk_count(ids.len()));
    assert(ids.take(ids.len() as int) =~= ids);
}

/// The first `count` windows of `ids`, joined in order, are the identifiers
/// that come before the window with index `count`.
proof fn lemma_first_chunks(ids: Seq<usize>, count: nat)
    requires
        count <= chunk_count(ids.len()),
    ensures
        first_chunks(ids, count).flatten() == ids.take(
            if count * CHUNK_SIZE <= ids.len() {
                count * CHUNK_SIZE
            } else {
                ids.len() as int
            },
        ),
    decreases count,
{
    if count == 0 {
        assert(first_chunks(ids, 0) =~= Seq::<Seq<usize>>::empty());
        assert(ids.take(0) =~= Seq::<usize>::empty());
    } else {
        let before = (count - 1) as nat;
        lemma_first_chunks(ids, before);
        assert(first_chunks(ids, count) =~= first_chunks(ids, before).push(chunk(ids, before)));
        first_chunks(ids, before).lemma_flatten_push(chunk(ids, before));
        let end = if count * CHUNK_SIZE <= ids.len() {
            count * CHUNK_SIZE
        } else {
            ids.len() as int
        };
        assert(ids.take(before * CHUNK_SIZE) + chunk(ids, before) =~= ids.take(end));
    }
}

/// A list of one to one hundred identifiers takes one query, which asks
/// for all of them: the lookup begins with that query where the client can
/// prepare it, and ends with whatever reply comes back for it.
pub proof fn lemma_single_call(token: Option<Seq<char>>, ids: Seq<usize>, reply: NodesReply)
    requires
        1 <= ids.len() <= CHUNK_SIZE,
    ensures
        chunks(ids) == seq![ids],
        match started(token, ids) {
            ProgressView::Send(state, call) => call.ids == node_ids(ids) && resumed(
                state,
                reply,
            ) is Done,
            ProgressView::Done(result) => result is Err,
        },
{
    assert(chunk(ids, 0) =~= ids);
    assert(chunks(ids) =~= seq![ids]);
}

/// A list of one hundred and one to two hundred identifiers takes two
/// queries: the first asks for the first hundred, and where it is
/// answered the second asks for the rest and nothing else, and the lookup
/// ends with whatever reply comes back for the second.
pub proof fn lemma_two_calls(
    token: Option<Seq<char>>,
    ids: Seq<usize>,
    first: NodesReply,
    second: NodesReply,
)
    requires
        CHUNK_SIZE < ids.len() <= 2 * CHUNK_SIZE,
    ensures
        chunks(ids) == seq![ids.take(CHUNK_SIZE as int), ids.skip(CHUNK_SIZE as int)],
        match started(token, ids) {
            ProgressView::Send(state, call) => call.ids == node_ids(ids.take(CHUNK_SIZE as int))
                && match resumed(state, first) {
                ProgressView::Send(next, rest) => graphql_outcome(first) is Ok && rest.ids
                    == node_ids(ids.skip(CHUNK_SIZE as int)) && resumed(next, second) is Done,
                ProgressView::Done(result) => graphql_outcome(first) is Err && result is Err,
            },
            ProgressView::Done(result) => result is Err,
        },
{
    assert(chunk(ids, 0) =~= ids.take(CHUNK_SIZE as int));
    assert(chunk(ids, 1) =~= ids.skip(CHUNK_SIZE as int));
    assert(chunks(ids) =~= seq![ids.take(CHUNK_SIZE as int), ids.skip(CHUNK_SIZE as int)]);
}

/// A lookup whose queries are all answered sends one query for each
/// window, in order, and no other: after as many replies as there are
/// windows it has ended with the logins of all the nodes that came back,
/// and after fewer it waits with the query for the next window.
pub proof fn lemma_answered_lookup(
    token: Option<Seq<char>>,
    ids: Seq<usize>,
    replies: Seq<NodesReply>,
)
    requires
        prepared(token, true, Method::Post, GRAPHQL_PATH@) is Ok,
        replies.len() <= chunk_count(ids.len()),
        forall|i: int| 0 <= i < replies.len() ==> graphql_outcome(#[trigger] replies[i]) is Ok,
    ensures
        match after_replies(started(token, ids), replies) {
            ProgressView::Send(state, call) => replies.len() < chunk_count(ids.len()) && state
                == (LookupView { token, ids, pending: replies.len(), names: names_after(replies) })
                && call.ids == node_ids(chunk(ids, replies.len())),
            ProgressView::Done(result) => replies.len() == chunk_count(ids.len()) && result == Ok::<
                Map<usize, Seq<char>>,
                ApiErrorView,
            >(names_after(replies)),
        },
    decreases replies.len(),
{
    if replies.len() > 0 {
        lemma_answered_lookup(token, ids, replies.drop_last());
    }
}

/// A lookup ends with the failure of the first query that fails: the
/// logins found before are dropped and no further query is sent.
pub proof fn lemma_failed_lookup(
    token: Option<Seq<char>>,
    ids: Seq<usize>,
    replies: Seq<NodesReply>,
)
    requires
        prepared(token, true, Method::Post, GRAPHQL_PATH@) is Ok,
        0 < replies.len() <= chunk_count(ids.len()),
        forall|i: int| 0 <= i < replies.len() - 1 ==> graphql_outcome(#[trigger] replies[i]) is Ok,
        graphql_outcome(replies.last()) is Err,
    ensures
        after_replies(started(token, ids), replies) == ProgressView::Done(
            Err(graphql_outcome(replies.last())->Err_0),
        ),
{
    lemma_answered_lookup(token, ids, replies.drop_last());
}

/// Taking nodes in gives exactly their entries: an identifier has a login
/// afterwards where it had one before or a node is present with it; its
/// login is that of the last such node, or the one it had where there is
/// no such node. Absent nodes add nothing.
pub proof fn lemma_merged_entries(names: Map<usize, Seq<char>>, nodes: Seq<Option<UserNode>>)
    ensures
        forall|id: usize|
            #![trigger merged(names, nodes).contains_key(id)]
            merged(names, nodes).contains_key(id) <==> names.contains_key(id) || has_node_of(
                nodes,
                id,
            ),
        forall|i: int, id: usize|
            #![trigger is_last_node_of(nodes, i, id)]
            is_last_node_of(nodes, i, id) ==> merged(names, nodes).contains_key(id) && merged(
                names,
                nodes,
            )[id] == nodes[i]->Some_0.login@,
        forall|id: usize|
            #![trigger merged(names, nodes)[id]]
            names.contains_key(id) && !has_node_of(nodes, id) ==> merged(names, nodes)[id]
                == names[id],
{
    assert forall|id: usize| #![trigger merged(names, nodes).contains_key(id)]
        merged(names, nodes).contains_key(id) <==> names.contains_key(id) || has_node_of(
            nodes,
            id,
        ) by {
        lemma_merged_at(names, nodes, id);
    }
    assert forall|i: int, id: usize| #![trigger is_last_node_of(nodes, i, id)]
        is_last_node_of(nodes, i, id) implies merged(names, nodes).contains_key(id) && merged(
            names,
            nodes,
        )[id] == nodes[i]->Some_0.login@ by {
        lemma_merged_at(names, nodes, id);
    }
    assert forall|id: usize| #![trigger merged(names, nodes)[id]]
        names.contains_key(id) && !has_node_of(nodes, id) implies merged(names, nodes)[id]
            == names[id] by {
        lemma_merged_at(names, nodes, id);
    }
}

/// What taking nodes in does to the login of one identifier.
proof fn lemma_merged_at(names: Map<usize, Seq<char>>, nodes: Seq<Option<UserNode>>, id: usize)
    ensures
        merged(names, nodes).contains_key(id) <==> names.contains_key(id) || has_node_of(nodes, id),
        names.contains_key(id) && !has_node_of(nodes, id) ==> merged(names, nodes)[id] == names[id],
        forall|i: int|
            #![trigger is_last_node_of(nodes, i, id)]
            is_last_node_of(nodes, i, id) ==> merged(names, nodes)[id] == nodes[i]->Some_0.login@,
    decreases nodes.len(),
{
    if nodes.len() == 0 {
        assert forall|i: int| !is_node_of(nodes, i, id) by {}
    } else {
        let front = nodes.drop_last();
        let last = nodes.len() - 1;
        lemma_merged_at(names, front, id);
        if has_node_of(nodes, id) {
            let i = choose|i: int| is_node_of(nodes, i, id);
            if i < last {
                assert(is_node_of(front, i, id));
            }
        }
        if has_node_of(front, id) {
            let i = choose|i: int| is_node_of(front, i, id);
            assert(is_node_of(nodes, i, id));
        }
        if is_node_of(nodes, last, id) {
            assert(has_node_of(nodes, id));
        }
        assert forall|i: int| #![trigger is_last_node_of(nodes, i, id)]
            is_last_node_of(nodes, i, id) implies merged(names, nodes)[id]
                == nodes[i]->Some_0.login@ by {
            if i < last {
                assert(!is_node_of(nodes, last, id));
                assert(is_node_of(front, i, id));
                assert forall|j: int| i < j < front.len() implies !is_node_of(front, j, id) by {
                    assert(!is_node_of(nodes, j, id));
                }
                assert(is_last_node_of(front, i, id));
            }
        }
    }
}

/// A lookup that waits for the reply to a query.
pub struct Lookup<'a> {
    api: &'a GitHubApi,
    ids: &'a [usize],
    pending: usize,
    names: HashMap<usize, String>,
}

/// Where a lookup stands.
pub enum Progress<'a> {
    /// The query is to be sent, and the reply handed to
    /// [`Lookup::resume`].
    Send(Lookup<'a>, GraphCall<NodeIds>),
    /// The lookup has ended, with the login of each user found under the
    /// user's database identifier, or with the failure of a query.
    Done(Result<HashMap<usize, String>, ApiError>),
}

impl<'a> View for Lookup<'a> {
    type V = LookupView;

    closed spec fn view(&self) -> LookupView {
        LookupView {
            token: self.api.token(),
            ids: self.ids@,
            pending: self.pending as nat,
            names: logins(self.names@),
        }
    }
}

impl View for GraphCall<NodeIds> {
    type V = CallView;

    open spec fn view(&self) -> CallView {
        CallView { request: self.request@, query: self.query@, ids: texts(self.variables.ids@) }
    }
}

impl<'a> View for Progress<'a> {
    type V = ProgressView;

    open spec fn view(&self) -> ProgressView {
        match self {
            Progress::Send(state, call) => ProgressView::Send(state@, call@),
            Progress::Done(Ok(names)) => ProgressView::Done(Ok(logins(names@))),
            Progress::Done(Err(error)) => ProgressView::Done(Err(error@)),
        }
    }
}

/// The number of queries that `len` identifiers take.
pub fn count_chunks(len: usize) -> (count: usize)
    ensures
        count == chunk_count(len as nat),
{
    if len % CHUNK_SIZE == 0 {
        len / CHUNK_SIZE
    } else {
        len / CHUNK_SIZE + 1
    }
}

/// The node identifiers of the window of `ids` with index `k`.
pub fn chunk_node_ids(ids: &[usize], k: usize) -> (out: Vec<String>)
    ensures
        texts(out@) == node_ids(chunk(ids@, k as nat)),
{
    let len = ids.len();
    if k >= count_chunks(len) {
        let out: Vec<String> = Vec::new();
        assert(texts(out@) =~= node_ids(chunk(ids@, k as nat)));
        return out;
    }
    assert(k * CHUNK_SIZE < len);
    let start = k * CHUNK_SIZE;
    let end = if len - start <= CHUNK_SIZE {
        len
    } else {
        start + CHUNK_SIZE
    };
    assert(chunk(ids@, k as nat) =~= ids@.subrange(start as int, end as int));
    let mut out: Vec<String> = Vec::new();
    let mut i = start;
    while i < end
        invariant
            start <= i <= end <= ids@.len(),
            out@.len() == i - start,
            forall|j: int| 0 <= j < out@.len() ==> (#[trigger] out@[j])@ == node_id(ids@[start + j] as nat),
        decreases end - i,
    {
        out.push(user_node_id(ids[i]));
        i = i + 1;
    }
    assert(texts(out@) =~= node_ids(ids@.subrange(start as int, end as int)));
    out
}

/// Takes the nodes `nodes` into `names`, in order.
pub fn merge_nodes(names: &mut HashMap<usize, String>, nodes: &Vec<Option<UserNode>>)
    ensures
        logins(final(names)@) == merged(logins(old(names)@), nodes@),
{
    let mut i: usize = 0;
    while i < nodes.len()
        invariant
            i <= nodes@.len(),
            logins(names@) =~= merged(logins(old(names)@), nodes@.take(i as int)),
        decreases nodes@.len() - i,
    {
        assert(nodes@.take(i + 1).drop_last() =~= nodes@.take(i as int));
        match &nodes[i] {
            Some(node) => {
                names.insert(node.database_id, node.login.clone());
            },
            None => {},
        }
        i = i + 1;
    }
    assert(nodes@.take(i as int) =~= nodes@);
}

impl<'a> Lookup<'a> {
    #[verifier::type_invariant]
    spec fn pending_in_range(&self) -> bool {
        self.pending < chunk_count(self.ids@.len())
    }

    /// Prepares the query with the index `pending`.
    fn issue(
        api: &'a GitHubApi,
        ids: &'a [usize],
        pending: usize,
        names: HashMap<usize, String>,
    ) -> (r: Progress<'a>)
        requires
            pending < chunk_count(ids@.len()),
        ensures
            r@ == proceed(
                LookupView {
                    token: api.token(),
                    ids: ids@,
                    pending: pending as nat,
                    names: logins(names@),
                },
            ),
    {
        let variables = NodeIds { ids: chunk_node_ids(ids, pending) };
        match api.graphql(USERNAMES_QUERY, variables) {
            Ok(call) => Progress::Send(Lookup { api, ids, pending, names }, call),
            Err(error) => Progress::Done(Err(error)),
        }
    }

    /// Goes on with the lookup when `reply` has come back for the query
    /// that waits.
    pub fn resume(self, reply: NodesReply) -> (r: Progress<'a>)
        ensures
            r@ == resumed(self@, reply),
    {
        proof {
            use_type_invariant(&self);
        }
        match graphql_result(reply) {
            Ok(answer) => {
                let Lookup { api, ids, pending, names } = self;
                let mut names = names;
                merge_nodes(&mut names, &answer.nodes);
                let count = count_chunks(ids.len());
                if pending + 1 < count {
                    Lookup::issue(api, ids, pending + 1, names)
                } else {
                    Progress::Done(Ok(names))
                }
            },
            Err(error) => Progress::Done(Err(error)),
        }
    }
}

impl GitHubApi {
    /// Begins the lookup of the logins of the users with the database
    /// identifiers `ids`.
    pub fn usernames<'a>(&'a self, ids: &'a [usize]) -> (r: Progress<'a>)
        ensures
            r@ == started(self.token(), ids@),
            ids@.len() == 0 ==> r@ == ProgressView::Done(Ok(Map::empty())),
            ids@.len() > 0 && self.token() is None ==> r@ == ProgressView::Done(
                Err(ApiErrorView::MissingToken),
            ),
    {
        assert(logins(Map::<usize, String>::empty()) =~= Map::<usize, Seq<char>>::empty());
        if ids.len() == 0 {
            Progress::Done(Ok(HashMap::new()))
        } else {
            Lookup::issue(self, ids, 0, HashMap::new())
        }
    }
}

} // verus!
