//! The handle to a node, and the calls that it offers.
//!
//! A call is made in two steps, with the round trip to the server between
//! them. The first step builds the request; the second reads what the
//! transport handed back for it. The handle keeps the connection, but neither
//! sends nor receives: it says what is sent and what the answer means.

use crate::block::{GetBlockReply, GetBlockReplyView};
use crate::chain::{BlockChainInfo, BlockChainInfoView, ChainTips, ChainTipsView};
use crate::error::{ok_view, result_view, typed, DecodeError, RpcError, RpcErrorView};
use crate::field::{copy_optional_text, i64_in, optional, real_of, required, string_of, Real};
use crate::json::{Json, JsonView};
use crate::mempool::{MemPoolInfo, MemPoolInfoView, RawMemPool, RawMemPoolView};
use crate::reply::{error_object, Reply, ReplyView, Request};
use crate::text::{decimal, lemma_integer_of_decimal};
use crate::txout::{TxOut, TxOutSetInfo, TxOutSetInfoView, TxOutView};
use vstd::prelude::*;

verus! {

/// The connection handle of `jsonrpc_v1`. The library reads nothing in it:
/// it is opened with the handle to the node and kept for the transport.
#[verifier::external_type_specification]
#[verifier::external_body]
pub struct ExClient(jsonrpc_v1::client::Client);

/// A handle to the JSON-RPC interface of a node: where it is, who asks, and
/// the connection over which requests travel.
///
/// A handle never holds a password without a user name. It is made for one
/// caller at a time: threads that share it take turns.
pub struct BitcoinRpc {
    url: String,
    user: Option<String>,
    pass: Option<String>,
    client: jsonrpc_v1::client::Client,
}

/// What a [`BitcoinRpc`] holds.
pub struct BitcoinRpcView {
    pub url: Seq<char>,
    pub user: Option<Seq<char>>,
    pub pass: Option<Seq<char>>,
}

/// Whether a user name and a password may be used together: a password
/// needs a user name, a user name needs no password.
pub open spec fn credentials_valid(user: Option<Seq<char>>, pass: Option<Seq<char>>) -> bool {
    pass is Some ==> user is Some
}

impl BitcoinRpcView {
    /// Whether the handle holds credentials that may be used together.
    pub open spec fn valid(self) -> bool {
        credentials_valid(self.user, self.pass)
    }
}

impl View for BitcoinRpc {
    type V = BitcoinRpcView;

    closed spec fn view(&self) -> BitcoinRpcView {
        BitcoinRpcView {
            url: self.url@,
            user: self.user.deep_view(),
            pass: self.pass.deep_view(),
        }
    }
}

/// Opens a connection handle for the node at `url`.
///
/// Calls `jsonrpc_v1::client::Client::new`, which keeps what it is given and
/// reaches for no network. Built with debug assertions it panics where there
/// is a password and no user name: `requires` leaves that input out. Nothing
/// is claimed of the handle that comes back.
#[verifier::external_body]
fn open_client(url: String, user: Option<String>, pass: Option<String>) -> (client:
    jsonrpc_v1::client::Client)
    requires
        credentials_valid(user.deep_view(), pass.deep_view()),
{
    jsonrpc_v1::client::Client::new(url, user, pass)
}

/// A hash: a string.
pub open spec fn hash_decoded(j: JsonView) -> Result<Seq<char>, DecodeError> {
    required(Some(j), |v: JsonView| string_of(v))
}

/// A hash that may be absent: a string, or `null` where there is none.
pub open spec fn optional_hash_decoded(j: JsonView) -> Result<Option<Seq<char>>, DecodeError> {
    optional(Some(j), |v: JsonView| string_of(v))
}

/// A count: the numeral of a signed 64-bit integer.
pub open spec fn count_decoded(j: JsonView) -> Result<i64, DecodeError> {
    required(Some(j), |v: JsonView| i64_in(v))
}

/// A difficulty: a number as JSON writes one.
pub open spec fn difficulty_decoded(j: JsonView) -> Result<Seq<char>, DecodeError> {
    required(Some(j), |v: JsonView| real_of(v))
}

/// A reading as the outcome of a call: what was read, or the decode error
/// that says why nothing could be.
fn read_as<T>(read: Result<T, DecodeError>) -> (r: Result<T, RpcError>)
    ensures
        match read {
            Ok(value) => r == Ok::<T, RpcError>(value),
            Err(why) => r == Err::<T, RpcError>(RpcError::Decode(why)),
        },
{
    match read {
        Ok(value) => Ok(value),
        Err(why) => Err(RpcError::Decode(why)),
    }
}

/// Reads a hash.
fn decode_hash(j: &Json) -> (r: Result<String, DecodeError>)
    ensures
        ok_view(r) == hash_decoded(j@),
{
    match j.to_text() {
        Some(value) => Ok(value),
        None => Err(DecodeError::TypeMismatch),
    }
}

/// Reads a hash that may be absent.
fn decode_optional_hash(j: &Json) -> (r: Result<Option<String>, DecodeError>)
    ensures
        ok_view(r) == optional_hash_decoded(j@),
{
    if j.is_null() {
        Ok(None)
    } else {
        match j.to_text() {
            Some(value) => Ok(Some(value)),
            None => Err(DecodeError::TypeMismatch),
        }
    }
}

/// Reads a count.
fn decode_count(j: &Json) -> (r: Result<i64, DecodeError>)
    ensures
        r == count_decoded(j@),
{
    match j.to_i64() {
        Some(value) => Ok(value),
        None => Err(DecodeError::TypeMismatch),
    }
}

/// Reads a difficulty.
fn decode_difficulty(j: &Json) -> (r: Result<Real, DecodeError>)
    ensures
        ok_view(r) == difficulty_decoded(j@),
{
    match j.to_real() {
        Some(value) => Ok(value),
        None => Err(DecodeError::TypeMismatch),
    }
}

impl ReplyView {
    /// What `getbestblockhash` returns for this reply: the hash of the best
    /// block.
    pub open spec fn best_block_hash(self) -> Result<Seq<char>, RpcErrorView> {
        typed(self.outcome(), |j: JsonView| hash_decoded(j))
    }

    /// What `getblock` returns for this reply: the block, in one of its two
    /// shapes.
    pub open spec fn block(self) -> Result<GetBlockReplyView, RpcErrorView> {
        typed(self.outcome(), |j: JsonView| GetBlockReply::decoded(j))
    }

    /// What `getblockchaininfo` returns for this reply: the state of the chain.
    pub open spec fn block_chain_info(self) -> Result<BlockChainInfoView, RpcErrorView> {
        typed(self.outcome(), |j: JsonView| BlockChainInfo::decoded(j))
    }

    /// What `getblockcount` returns for this reply: the height of the best
    /// block.
    pub open spec fn block_count(self) -> Result<i64, RpcErrorView> {
        typed(self.outcome(), |j: JsonView| count_decoded(j))
    }

    /// What `getblockhash` returns for this reply: the hash of the block, or
    /// `None` where the server knows no block at that height.
    pub open spec fn block_hash(self) -> Result<Option<Seq<char>>, RpcErrorView> {
        typed(self.outcome(), |j: JsonView| optional_hash_decoded(j))
    }

    /// What `getchaintips` returns for this reply: the heads of the block tree.
    pub open spec fn chain_tips(self) -> Result<ChainTipsView, RpcErrorView> {
        typed(self.outcome(), |j: JsonView| ChainTips::decoded(j))
    }

    /// What `getdifficulty` returns for this reply: the difficulty, as the
    /// number that the server wrote.
    pub open spec fn difficulty(self) -> Result<Seq<char>, RpcErrorView> {
        typed(self.outcome(), |j: JsonView| difficulty_decoded(j))
    }

    /// What `getmempoolinfo` returns for this reply: the size of the pool.
    pub open spec fn mem_pool_info(self) -> Result<MemPoolInfoView, RpcErrorView> {
        typed(self.outcome(), |j: JsonView| MemPoolInfo::decoded(j))
    }

    /// What `getrawmempool` returns for this reply: the pool, in one of its two
    /// shapes.
    pub open spec fn raw_mem_pool(self) -> Result<RawMemPoolView, RpcErrorView> {
        typed(self.outcome(), |j: JsonView| RawMemPool::decoded(j))
    }

    /// What `gettxout` returns for this reply: the output.
    pub open spec fn tx_out(self) -> Result<TxOutView, RpcErrorView> {
        typed(self.outcome(), |j: JsonView| TxOut::decoded(j))
    }

    /// What `gettxoutsetinfo` returns for this reply: the summary.
    pub open spec fn tx_out_set_info(self) -> Result<TxOutSetInfoView, RpcErrorView> {
        typed(self.outcome(), |j: JsonView| TxOutSetInfo::decoded(j))
    }
}

impl BitcoinRpc {
    #[verifier::type_invariant]
    spec fn well_formed(self) -> bool {
        self.pass is Some ==> self.user is Some
    }

    /// The connection that the handle was opened with.
    pub closed spec fn connection(&self) -> jsonrpc_v1::client::Client {
        self.client
    }

    /// A handle to the node at `url`, for the user `user` with the password
    /// `pass`.
    ///
    /// A password without a user name is not accepted: a caller that cannot
    /// rule it out uses [`BitcoinRpc::try_new`].
    pub fn new(url: &str, user: Option<String>, pass: Option<String>) -> (rpc: BitcoinRpc)
        requires
            credentials_valid(user.deep_view(), pass.deep_view()),
        ensures
            rpc@ == (BitcoinRpcView {
                url: url@,
                user: user.deep_view(),
                pass: pass.deep_view(),
            }),
            rpc@.valid(),
    {
        let client = open_client(
            url.to_owned(),
            copy_optional_text(&user),
            copy_optional_text(&pass),
        );
        BitcoinRpc { url: url.to_owned(), user, pass, client }
    }

    /// A handle to the node at `url`, for the user `user` with the password
    /// `pass`; `None` for a password without a user name, and for that only.
    pub fn try_new(url: &str, user: Option<String>, pass: Option<String>) -> (rpc: Option<
        BitcoinRpc,
    >)
        ensures
            rpc is Some <==> credentials_valid(user.deep_view(), pass.deep_view()),
            rpc matches Some(handle) ==> handle@ == (BitcoinRpcView {
                url: url@,
                user: user.deep_view(),
                pass: pass.deep_view(),
            }),
    {
        if pass.is_some() && user.is_none() {
            None
        } else {
            Some(BitcoinRpc::new(url, user, pass))
        }
    }

    /// The connection over which the requests of this handle travel.
    pub fn client(&self) -> (client: &jsonrpc_v1::client::Client)
        ensures
            *client == self.connection(),
    {
        &self.client
    }

    /// Where the node is.
    pub fn url(&self) -> (url: &str)
        ensures
            url@ == self@.url,
    {
        self.url.as_str()
    }

    /// The user name, if there is one.
    pub fn user(&self) -> (user: Option<&String>)
        ensures
            user.deep_view() == self@.user,
    {
        self.user.as_ref()
    }

    /// The password, if there is one. A handle that holds a password holds a
    /// user name too.
    pub fn pass(&self) -> (pass: Option<&String>)
        ensures
            pass.deep_view() == self@.pass,
            self@.valid(),
    {
        proof {
            use_type_invariant(self);
        }
        self.pass.as_ref()
    }

    /// The request that asks for the hash of the best block.
    pub fn getbestblockhash(&self) -> (request: Request)
        ensures
            request@.method == "getbestblockhash"@,
            request@.params == Seq::<JsonView>::empty(),
    {
        Request::without_params("getbestblockhash")
    }

    /// Reads the reply to `getbestblockhash`: the hash of the best block.
    pub fn getbestblockhash_reply(&self, reply: Reply) -> (r: Result<String, RpcError>)
        ensures
            result_view(r) == reply@.best_block_hash(),
    {
        let answer = reply.into_result()?;
        read_as(decode_hash(&answer))
    }

    /// The request that asks for the block with the hash `header_hash`, in
    /// detail where `format` is set.
    pub fn getblock(&self, header_hash: String, format: bool) -> (request: Request)
        ensures
            request@.method == "getblock"@,
            request@.params == seq![JsonView::String(header_hash@), JsonView::Bool(format)],
    {
        let mut params: Vec<Json> = Vec::new();
        params.push(Json::from_text(header_hash));
        params.push(Json::from_bool(format));
        let request = Request::new("getblock", params);
        assert(request@.params =~= seq![JsonView::String(header_hash@), JsonView::Bool(format)]);
        request
    }

    /// Reads the reply to `getblock`: the block, in one of its two shapes.
    pub fn getblock_reply(&self, reply: Reply) -> (r: Result<GetBlockReply, RpcError>)
        ensures
            result_view(r) == reply@.block(),
    {
        let answer = reply.into_result()?;
        read_as(GetBlockReply::from_json(&answer))
    }

    /// The request that asks for the state of the chain.
    pub fn getblockchaininfo(&self) -> (request: Request)
        ensures
            request@.method == "getblockchaininfo"@,
            request@.params == Seq::<JsonView>::empty(),
    {
        Request::without_params("getblockchaininfo")
    }

    /// Reads the reply to `getblockchaininfo`: the state of the chain.
    pub fn getblockchaininfo_reply(&self, reply: Reply) -> (r: Result<BlockChainInfo, RpcError>)
        ensures
            result_view(r) == reply@.block_chain_info(),
    {
        let answer = reply.into_result()?;
        read_as(BlockChainInfo::from_json(&answer))
    }

    /// The request that asks for the height of the best block.
    pub fn getblockcount(&self) -> (request: Request)
        ensures
            request@.method == "getblockcount"@,
            request@.params == Seq::<JsonView>::empty(),
    {
        Request::without_params("getblockcount")
    }

    /// Reads the reply to `getblockcount`: the height of the best block.
    pub fn getblockcount_reply(&self, reply: Reply) -> (r: Result<i64, RpcError>)
        ensures
            result_view(r) == reply@.block_count(),
    {
        let answer = reply.into_result()?;
        read_as(decode_count(&answer))
    }

    /// The request that asks for the hash of the block at `block_height`.
    ///
    /// Every integer is accepted and written as it is: it is for the
    /// server to refuse one that is out of range.
    pub fn getblockhash(&self, block_height: i64) -> (request: Request)
        ensures
            request@.method == "getblockhash"@,
            request@.params == seq![JsonView::Number(decimal(block_height as int))],
    {
        let mut params: Vec<Json> = Vec::new();
        params.push(Json::from_i64(block_height));
        let request = Request::new("getblockhash", params);
        assert(request@.params =~= seq![JsonView::Number(decimal(block_height as int))]);
        request
    }

    /// Reads the reply to `getblockhash`: the hash of the block, or `None`
    /// where the server knows no block at that height.
    pub fn getblockhash_reply(&self, reply: Reply) -> (r: Result<Option<String>, RpcError>)
        ensures
            result_view(r) == reply@.block_hash(),
    {
        let answer = reply.into_result()?;
        read_as(decode_optional_hash(&answer))
    }

    /// The request that asks for the heads of the block tree.
    pub fn getchaintips(&self) -> (request: Request)
        ensures
            request@.method == "getchaintips"@,
            request@.params == Seq::<JsonView>::empty(),
    {
        Request::without_params("getchaintips")
    }

    /// Reads the reply to `getchaintips`: the heads of the block tree.
    pub fn getchaintips_reply(&self, reply: Reply) -> (r: Result<ChainTips, RpcError>)
        ensures
            result_view(r) == reply@.chain_tips(),
    {
        let answer = reply.into_result()?;
        read_as(ChainTips::from_json(&answer))
    }

    /// The request that asks for the difficulty of the proof of work.
    pub fn getdifficulty(&self) -> (request: Request)
        ensures
            request@.method == "getdifficulty"@,
            request@.params == Seq::<JsonView>::empty(),
    {
        Request::without_params("getdifficulty")
    }

    /// Reads the reply to `getdifficulty`: the difficulty, as the number that
    /// the server wrote.
    pub fn getdifficulty_reply(&self, reply: Reply) -> (r: Result<Real, RpcError>)
        ensures
            result_view(r) == reply@.difficulty(),
    {
        let answer = reply.into_result()?;
        read_as(decode_difficulty(&answer))
    }

    /// The request that asks for the size of the pool of waiting transactions.
    pub fn getmempoolinfo(&self) -> (request: Request)
        ensures
            request@.method == "getmempoolinfo"@,
            request@.params == Seq::<JsonView>::empty(),
    {
        Request::without_params("getmempoolinfo")
    }

    /// Reads the reply to `getmempoolinfo`: the size of the pool.
    pub fn getmempoolinfo_reply(&self, reply: Reply) -> (r: Result<MemPoolInfo, RpcError>)
        ensures
            result_view(r) == reply@.mem_pool_info(),
    {
        let answer = reply.into_result()?;
        read_as(MemPoolInfo::from_json(&answer))
    }

    /// The request that asks for the transactions that wait in the pool, in
    /// detail where `format` is set.
    pub fn getrawmempool(&self, format: bool) -> (request: Request)
        ensures
            request@.method == "getrawmempool"@,
            request@.params == seq![JsonView::Bool(format)],
    {
        let mut params: Vec<Json> = Vec::new();
        params.push(Json::from_bool(format));
        let request = Request::new("getrawmempool", params);
        assert(request@.params =~= seq![JsonView::Bool(format)]);
        request
    }

    /// Reads the reply to `getrawmempool`: the pool, in one of its two shapes.
    pub fn getrawmempool_reply(&self, reply: Reply) -> (r: Result<RawMemPool, RpcError>)
        ensures
            result_view(r) == reply@.raw_mem_pool(),
    {
        let answer = reply.into_result()?;
        read_as(RawMemPool::from_json(&answer))
    }

    /// The request that asks for the output `vout` of the transaction `txid`,
    /// counting waiting transactions where `unconfirmed` is set.
    ///
    /// Every integer is accepted and written as it is: it is for the
    /// server to refuse one that is out of range.
    pub fn gettxout(&self, txid: String, vout: i64, unconfirmed: bool) -> (request: Request)
        ensures
            request@.method == "gettxout"@,
            request@.params == seq![
                JsonView::String(txid@),
                JsonView::Number(decimal(vout as int)),
                JsonView::Bool(unconfirmed),
            ],
    {
        let mut params: Vec<Json> = Vec::new();
        params.push(Json::from_text(txid));
        params.push(Json::from_i64(vout));
        params.push(Json::from_bool(unconfirmed));
        let request = Request::new("gettxout", params);
        assert(request@.params =~= seq![
            JsonView::String(txid@),
            JsonView::Number(decimal(vout as int)),
            JsonView::Bool(unconfirmed),
        ]);
        request
    }

    /// Reads the reply to `gettxout`: the output.
    pub fn gettxout_reply(&self, reply: Reply) -> (r: Result<TxOut, RpcError>)
        ensures
            result_view(r) == reply@.tx_out(),
    {
        let answer = reply.into_result()?;
        read_as(TxOut::from_json(&answer))
    }

    /// The request that asks for a summary of the unspent outputs.
    pub fn gettxoutsetinfo(&self) -> (request: Request)
        ensures
            request@.method == "gettxoutsetinfo"@,
            request@.params == Seq::<JsonView>::empty(),
    {
        Request::without_params("gettxoutsetinfo")
    }

    /// Reads the reply to `gettxoutsetinfo`: the summary.
    pub fn gettxoutsetinfo_reply(&self, reply: Reply) -> (r: Result<TxOutSetInfo, RpcError>)
        ensures
            result_view(r) == reply@.tx_out_set_info(),
    {
        let answer = reply.into_result()?;
        read_as(TxOutSetInfo::from_json(&answer))
    }
}

/// A response that reports an error object fails the call with a protocol
/// error that carries the object's code and message, whatever the call is and
/// whatever the response holds as its result.
pub proof fn lemma_rejection_is_protocol_error<T>(
    reply: ReplyView,
    decoded: spec_fn(JsonView) -> Result<T, DecodeError>,
)
    requires
        reply.reports_error(),
        error_object(reply->error->0) is Some,
    ensures
        error_object(reply->error->0) matches Some((code, message)) && typed(
            reply.outcome(),
            decoded,
        ) == Err::<T, RpcErrorView>(RpcErrorView::Protocol { code, message }),
{
}

/// A response that reports an error object fails each of the calls of the
/// handle with the same protocol error.
pub proof fn lemma_rejection_fails_every_call(reply: ReplyView)
    requires
        reply.reports_error(),
        error_object(reply->error->0) is Some,
    ensures
        error_object(reply->error->0) matches Some((code, message)) && ({
            let refused = RpcErrorView::Protocol { code, message };
            &&& reply.best_block_hash() == Err::<Seq<char>, RpcErrorView>(refused)
            &&& reply.block() == Err::<GetBlockReplyView, RpcErrorView>(refused)
            &&& reply.block_chain_info() == Err::<BlockChainInfoView, RpcErrorView>(refused)
            &&& reply.block_count() == Err::<i64, RpcErrorView>(refused)
            &&& reply.block_hash() == Err::<Option<Seq<char>>, RpcErrorView>(refused)
            &&& reply.chain_tips() == Err::<ChainTipsView, RpcErrorView>(refused)
            &&& reply.difficulty() == Err::<Seq<char>, RpcErrorView>(refused)
            &&& reply.mem_pool_info() == Err::<MemPoolInfoView, RpcErrorView>(refused)
            &&& reply.raw_mem_pool() == Err::<RawMemPoolView, RpcErrorView>(refused)
            &&& reply.tx_out() == Err::<TxOutView, RpcErrorView>(refused)
            &&& reply.tx_out_set_info() == Err::<TxOutSetInfoView, RpcErrorView>(refused)
        }),
{
}

/// A round trip that did not complete fails the call with a transport error
/// that carries the transport's account, whatever the call is.
pub proof fn lemma_failure_is_transport_error<T>(
    why: Seq<char>,
    decoded: spec_fn(JsonView) -> Result<T, DecodeError>,
)
    ensures
        typed(ReplyView::Failed(why).outcome(), decoded) == Err::<T, RpcErrorView>(
            RpcErrorView::Transport(why),
        ),
{
}

/// A response without an error gives a value or a decode error, never an
/// error of another kind: what the server sent is read, or refused as
/// unreadable, and nothing is put in its place.
pub proof fn lemma_answer_is_read<T>(
    reply: ReplyView,
    decoded: spec_fn(JsonView) -> Result<T, DecodeError>,
)
    requires
        reply is Response,
        !reply.reports_error(),
    ensures
        reply.outcome() is Ok,
        typed(reply.outcome(), decoded) == match decoded(reply.outcome()->Ok_0) {
            Ok(value) => Ok::<T, RpcErrorView>(value),
            Err(why) => Err(RpcErrorView::Decode(why)),
        },
{
}

/// Where the server answers `getblockhash` with neither a hash nor an error,
/// the call succeeds and returns `None`: that there is no such block is an
/// answer, not a failure.
pub proof fn lemma_absent_block_hash(reply: ReplyView)
    requires
        reply is Response,
        !reply.reports_error(),
        reply->result is None || reply->result == Some(JsonView::Null),
    ensures
        reply.block_hash() == Ok::<Option<Seq<char>>, RpcErrorView>(None),
{
}

/// An integer argument reaches the server as it was given: the number
/// that a request holds for it reads as the same integer, be it negative or
/// beyond any height that a chain can have.
pub proof fn lemma_integer_passes_unchanged(n: i64)
    ensures
        i64_in(JsonView::Number(decimal(n as int))) == Some(n),
{
    lemma_integer_of_decimal(n as int);
}

} // verus!
