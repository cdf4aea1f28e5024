//! What the calls about the chain as a whole return.

use crate::error::{ok_view, DecodeError};
use crate::field::Real;
use crate::json::{
    distinct_keys, lemma_array_view, lemma_member_of_distinct, lemma_object_view, Json, JsonView,
};
use crate::text::{decimal, is_real_literal, lemma_integer_of_decimal};
use vstd::prelude::*;

verus! {

/// The state of the chain that the node follows.
#[derive(Debug, PartialEq, Eq)]
pub struct BlockChainInfo {
    pub chain: String,
    pub blocks: u64,
    pub headers: u64,
    pub bestblockhash: String,
    pub difficulty: Real,
    pub verificationprogress: Real,
    pub chainwork: String,
}

/// What a [`BlockChainInfo`] holds.
pub struct BlockChainInfoView {
    pub chain: Seq<char>,
    pub blocks: u64,
    pub headers: u64,
    pub bestblockhash: Seq<char>,
    pub difficulty: Seq<char>,
    pub verificationprogress: Seq<char>,
    pub chainwork: Seq<char>,
}

impl View for BlockChainInfo {
    type V = BlockChainInfoView;

    open spec fn view(&self) -> BlockChainInfoView {
        BlockChainInfoView {
            chain: self.chain@,
            blocks: self.blocks,
            headers: self.headers,
            bestblockhash: self.bestblockhash@,
            difficulty: self.difficulty@,
            verificationprogress: self.verificationprogress@,
            chainwork: self.chainwork@,
        }
    }
}

impl DeepView for BlockChainInfo {
    type V = BlockChainInfoView;

    open spec fn deep_view(&self) -> BlockChainInfoView {
        self.view()
    }
}

impl Clone for BlockChainInfo {
    /// A copy that holds what the record holds.
    fn clone(&self) -> (copy: BlockChainInfo)
        ensures
            copy@ == self@,
    {
        BlockChainInfo {
            chain: self.chain.clone(),
            blocks: self.blocks,
            headers: self.headers,
            bestblockhash: self.bestblockhash.clone(),
            difficulty: self.difficulty.clone(),
            verificationprogress: self.verificationprogress.clone(),
            chainwork: self.chainwork.clone(),
        }
    }
}

impl BlockChainInfoView {
    /// Whether each number of the record is text that writes a number.
    pub open spec fn well_formed(self) -> bool {
        &&& is_real_literal(self.difficulty)
        &&& is_real_literal(self.verificationprogress)
    }
}

impl BlockChainInfo {
    /// The state that the object `j` describes, member by member; the
    /// failure of the first member, in the order of the record, that cannot
    /// be read. What is no object at all is a value of the wrong type.
    pub open spec fn decoded(j: JsonView) -> Result<BlockChainInfoView, DecodeError> {
        let chain = j.string_field("chain"@);
        let blocks = j.u64_field("blocks"@);
        let headers = j.u64_field("headers"@);
        let bestblockhash = j.string_field("bestblockhash"@);
        let difficulty = j.real_field("difficulty"@);
        let verificationprogress = j.real_field("verificationprogress"@);
        let chainwork = j.string_field("chainwork"@);
        if !(j is Object) {
            Err(DecodeError::TypeMismatch)
        } else if chain is Err {
            Err(chain->Err_0)
        } else if blocks is Err {
            Err(blocks->Err_0)
        } else if headers is Err {
            Err(headers->Err_0)
        } else if bestblockhash is Err {
            Err(bestblockhash->Err_0)
        } else if difficulty is Err {
            Err(difficulty->Err_0)
        } else if verificationprogress is Err {
            Err(verificationprogress->Err_0)
        } else if chainwork is Err {
            Err(chainwork->Err_0)
        } else {
            Ok(
                BlockChainInfoView {
                    chain: chain->Ok_0,
                    blocks: blocks->Ok_0,
                    headers: headers->Ok_0,
                    bestblockhash: bestblockhash->Ok_0,
                    difficulty: difficulty->Ok_0,
                    verificationprogress: verificationprogress->Ok_0,
                    chainwork: chainwork->Ok_0,
                },
            )
        }
    }

    /// The object that describes `info`: one member for each field, in the
    /// order of the record, under the name that the field has on the wire.
    /// Reading looks each field up under the same name.
    pub open spec fn encoded(info: BlockChainInfoView) -> JsonView {
        JsonView::Object(
            seq![
                ("chain"@, JsonView::String(info.chain)),
                ("blocks"@, JsonView::Number(decimal(info.blocks as int))),
                ("headers"@, JsonView::Number(decimal(info.headers as int))),
                ("bestblockhash"@, JsonView::String(info.bestblockhash)),
                ("difficulty"@, JsonView::Number(info.difficulty)),
                ("verificationprogress"@, JsonView::Number(info.verificationprogress)),
                ("chainwork"@, JsonView::String(info.chainwork)),
            ],
        )
    }

    /// Reads the state of the chain from the object that describes it.
    pub fn from_json(j: &Json) -> (r: Result<BlockChainInfo, DecodeError>)
        ensures
            ok_view(r) == BlockChainInfo::decoded(j@),
    {
        if !j.is_object() {
            return Err(DecodeError::TypeMismatch);
        }
        let chain = j.string_field("chain")?;
        let blocks = j.u64_field("blocks")?;
        let headers = j.u64_field("headers")?;
        let bestblockhash = j.string_field("bestblockhash")?;
        let difficulty = j.real_field("difficulty")?;
        let verificationprogress = j.real_field("verificationprogress")?;
        let chainwork = j.string_field("chainwork")?;
        Ok(
            BlockChainInfo {
                chain,
                blocks,
                headers,
                bestblockhash,
                difficulty,
                verificationprogress,
                chainwork,
            },
        )
    }

    /// Writes the state of the chain as the object that describes it.
    pub fn to_json(&self) -> (j: Json)
        ensures
            j@ == BlockChainInfo::encoded(self@),
            self@.well_formed(),
    {
        let mut members: Vec<(String, Json)> = Vec::new();
        members.push(("chain".to_owned(), Json::from_text(self.chain.clone())));
        members.push(("blocks".to_owned(), Json::from_u64(self.blocks)));
        members.push(("headers".to_owned(), Json::from_u64(self.headers)));
        members.push(("bestblockhash".to_owned(), Json::from_text(self.bestblockhash.clone())));
        members.push(("difficulty".to_owned(), self.difficulty.to_json()));
        members.push(("verificationprogress".to_owned(), self.verificationprogress.to_json()));
        members.push(("chainwork".to_owned(), Json::from_text(self.chainwork.clone())));
        proof {
            lemma_object_view(members);
            assert(members.deep_view() =~= BlockChainInfo::encoded(self@)->Object_0);
        }
        Json::Object(members)
    }

    /// The names of the members differ from each other.
    proof fn lemma_names(info: BlockChainInfoView)
        ensures
            distinct_keys(BlockChainInfo::encoded(info)->Object_0),
    {
        reveal_strlit("chain");
        reveal_strlit("blocks");
        reveal_strlit("headers");
        reveal_strlit("bestblockhash");
        reveal_strlit("difficulty");
        reveal_strlit("verificationprogress");
        reveal_strlit("chainwork");
        assert("chain"@.len() == 5);
        assert("blocks"@.len() == 6);
        assert("headers"@.len() == 7);
        assert("bestblockhash"@.len() == 13);
        assert("difficulty"@.len() == 10);
        assert("verificationprogress"@.len() == 20);
        assert("chainwork"@.len() == 9);
    }

    /// A state that is written and read again is the same state.
    pub proof fn lemma_round_trip(info: BlockChainInfoView)
        requires
            info.well_formed(),
        ensures
            BlockChainInfo::decoded(BlockChainInfo::encoded(info)) == Ok::<
                BlockChainInfoView,
                DecodeError,
            >(info),
    {
        let members = BlockChainInfo::encoded(info)->Object_0;
        BlockChainInfo::lemma_names(info);
        lemma_member_of_distinct(members, 0);
        lemma_member_of_distinct(members, 1);
        lemma_member_of_distinct(members, 2);
        lemma_member_of_distinct(members, 3);
        lemma_member_of_distinct(members, 4);
        lemma_member_of_distinct(members, 5);
        lemma_member_of_distinct(members, 6);
        lemma_integer_of_decimal(info.blocks as int);
        lemma_integer_of_decimal(info.headers as int);
    }
}

/// One of the heads of the block tree that the node knows.
#[derive(Debug, PartialEq, Eq)]
pub struct Tip {
    pub height: i64,
    pub hash: String,
    pub branchlen: i64,
    pub status: String,
}

/// What a [`Tip`] holds.
pub struct TipView {
    pub height: i64,
    pub hash: Seq<char>,
    pub branchlen: i64,
    pub status: Seq<char>,
}

impl View for Tip {
    type V = TipView;

    open spec fn view(&self) -> TipView {
        TipView {
            height: self.height,
            hash: self.hash@,
            branchlen: self.branchlen,
            status: self.status@,
        }
    }
}

impl DeepView for Tip {
    type V = TipView;

    open spec fn deep_view(&self) -> TipView {
        self.view()
    }
}

impl Clone for Tip {
    /// A copy that holds what the tip holds.
    fn clone(&self) -> (copy: Tip)
        ensures
            copy@ == self@,
    {
        Tip {
            height: self.height,
            hash: self.hash.clone(),
            branchlen: self.branchlen,
            status: self.status.clone(),
        }
    }
}

impl Tip {
    /// The tip that the object `j` describes, member by member; the
    /// failure of the first member, in the order of the record, that cannot
    /// be read. What is no object at all is a value of the wrong type.
    pub open spec fn decoded(j: JsonView) -> Result<TipView, DecodeError> {
        let height = j.i64_field("height"@);
        let hash = j.string_field("hash"@);
        let branchlen = j.i64_field("branchlen"@);
        let status = j.string_field("status"@);
        if !(j is Object) {
            Err(DecodeError::TypeMismatch)
        } else if height is Err {
            Err(height->Err_0)
        } else if hash is Err {
            Err(hash->Err_0)
        } else if branchlen is Err {
            Err(branchlen->Err_0)
        } else if status is Err {
            Err(status->Err_0)
        } else {
            Ok(
                TipView {
                    height: height->Ok_0,
                    hash: hash->Ok_0,
                    branchlen: branchlen->Ok_0,
                    status: status->Ok_0,
                },
            )
        }
    }

    /// The object that describes `tip`: one member for each field, in the
    /// order of the record, under the name that the field has on the wire.
    /// Reading looks each field up under the same name.
    pub open spec fn encoded(tip: TipView) -> JsonView {
        JsonView::Object(
            seq![
                ("height"@, JsonView::Number(decimal(tip.height as int))),
                ("hash"@, JsonView::String(tip.hash)),
                ("branchlen"@, JsonView::Number(decimal(tip.branchlen as int))),
                ("status"@, JsonView::String(tip.status)),
            ],
        )
    }

    /// Reads a tip from the object that describes it.
    pub fn from_json(j: &Json) -> (r: Result<Tip, DecodeError>)
        ensures
            ok_view(r) == Tip::decoded(j@),
    {
        if !j.is_object() {
            return Err(DecodeError::TypeMismatch);
        }
        let height = j.i64_field("height")?;
        let hash = j.string_field("hash")?;
        let branchlen = j.i64_field("branchlen")?;
        let status = j.string_field("status")?;
        Ok(Tip { height, hash, branchlen, status })
    }

    /// Writes the tip as the object that describes it.
    pub fn to_json(&self) -> (j: Json)
        ensures
            j@ == Tip::encoded(self@),
    {
        let mut members: Vec<(String, Json)> = Vec::new();
        members.push(("height".to_owned(), Json::from_i64(self.height)));
        members.push(("hash".to_owned(), Json::from_text(self.hash.clone())));
        members.push(("branchlen".to_owned(), Json::from_i64(self.branchlen)));
        members.push(("status".to_owned(), Json::from_text(self.status.clone())));
        proof {
            lemma_object_view(members);
            assert(members.deep_view() =~= Tip::encoded(self@)->Object_0);
        }
        Json::Object(members)
    }

    /// The names of the members differ from each other.
    proof fn lemma_names(tip: TipView)
        ensures
            distinct_keys(Tip::encoded(tip)->Object_0),
    {
        reveal_strlit("height");
        reveal_strlit("hash");
        reveal_strlit("branchlen");
        reveal_strlit("status");
        assert("height"@.len() == 6 && "height"@[0] == 'h');
        assert("hash"@.len() == 4);
        assert("branchlen"@.len() == 9);
        assert("status"@.len() == 6 && "status"@[0] == 's');
    }

    /// A tip that is written and read again is the same tip.
    pub proof fn lemma_round_trip(tip: TipView)
        ensures
            Tip::decoded(Tip::encoded(tip)) == Ok::<TipView, DecodeError>(tip),
    {
        let members = Tip::encoded(tip)->Object_0;
        Tip::lemma_names(tip);
        lemma_member_of_distinct(members, 0);
        lemma_member_of_distinct(members, 1);
        lemma_member_of_distinct(members, 2);
        lemma_member_of_distinct(members, 3);
        lemma_integer_of_decimal(tip.height as int);
        lemma_integer_of_decimal(tip.branchlen as int);
    }
}

/// The tips that `items` describe, one for one; the failure of the first
/// item that describes none.
pub open spec fn tips_decoded(items: Seq<JsonView>) -> Result<Seq<TipView>, DecodeError>
    decreases items.len(),
{
    if items.len() == 0 {
        Ok(Seq::empty())
    } else {
        match tips_decoded(items.drop_last()) {
            Err(why) => Err(why),
            Ok(tips) => match Tip::decoded(items.last()) {
                Err(why) => Err(why),
                Ok(tip) => Ok(tips.push(tip)),
            },
        }
    }
}

/// The objects that describe `tips`, one for one.
pub open spec fn tips_encoded(tips: Seq<TipView>) -> Seq<JsonView> {
    Seq::new(tips.len(), |i: int| Tip::encoded(tips[i]))
}

/// Where the first `k` items fail to describe tips, so do all of them, for
/// the same reason.
proof fn lemma_tips_failure_stays(items: Seq<JsonView>, k: int)
    requires
        0 <= k <= items.len(),
        tips_decoded(items.take(k)) is Err,
    ensures
        tips_decoded(items) == tips_decoded(items.take(k)),
    decreases items.len() - k,
{
    if k < items.len() {
        assert(items.take(k + 1).drop_last() =~= items.take(k));
        lemma_tips_failure_stays(items, k + 1);
    } else {
        assert(items.take(k) =~= items);
    }
}

/// Tips that are written and read again are the same tips.
pub proof fn lemma_tips_round_trip(tips: Seq<TipView>)
    ensures
        tips_decoded(tips_encoded(tips)) == Ok::<Seq<TipView>, DecodeError>(tips),
    decreases tips.len(),
{
    let items = tips_encoded(tips);
    if tips.len() == 0 {
        assert(tips =~= Seq::empty());
    } else {
        assert(items.drop_last() =~= tips_encoded(tips.drop_last()));
        lemma_tips_round_trip(tips.drop_last());
        Tip::lemma_round_trip(tips.last());
        assert(tips.drop_last().push(tips.last()) =~= tips);
    }
}

/// The heads of the block tree that the node knows.
#[derive(Debug, PartialEq, Eq)]
pub struct ChainTips {
    pub result: Vec<Tip>,
}

/// What a [`ChainTips`] holds.
pub struct ChainTipsView {
    pub result: Seq<TipView>,
}

impl View for ChainTips {
    type V = ChainTipsView;

    open spec fn view(&self) -> ChainTipsView {
        ChainTipsView { result: self.result.deep_view() }
    }
}

impl DeepView for ChainTips {
    type V = ChainTipsView;

    open spec fn deep_view(&self) -> ChainTipsView {
        self.view()
    }
}

impl Clone for ChainTips {
    /// A copy that holds the same tips.
    fn clone(&self) -> (copy: ChainTips)
        ensures
            copy@ == self@,
    {
        let mut result: Vec<Tip> = Vec::new();
        let mut i: usize = 0;
        while i < self.result.len()
            invariant
                i <= self.result@.len(),
                result@.len() == i,
                forall|k: int| 0 <= k < i ==> (#[trigger] result@[k])@ == self.result@[k]@,
            decreases self.result@.len() - i,
        {
            result.push(self.result[i].clone());
            i = i + 1;
        }
        assert(result.deep_view() =~= self.result.deep_view());
        ChainTips { result }
    }
}

impl ChainTips {
    /// The tips that the object `j` holds under `result`, as an array of
    /// objects that each describe one.
    pub open spec fn decoded(j: JsonView) -> Result<ChainTipsView, DecodeError> {
        if !(j is Object) {
            Err(DecodeError::TypeMismatch)
        } else {
            match j.member("result"@) {
                None => Err(DecodeError::MissingField),
                Some(JsonView::Array(items)) => match tips_decoded(items) {
                    Ok(tips) => Ok(ChainTipsView { result: tips }),
                    Err(why) => Err(why),
                },
                Some(_) => Err(DecodeError::TypeMismatch),
            }
        }
    }

    /// The object that holds the tips under `result`.
    pub open spec fn encoded(tips: ChainTipsView) -> JsonView {
        JsonView::Object(seq![("result"@, JsonView::Array(tips_encoded(tips.result)))])
    }

    /// Reads tips from the object that holds them under `result`.
    pub fn from_json(j: &Json) -> (r: Result<ChainTips, DecodeError>)
        ensures
            ok_view(r) == ChainTips::decoded(j@),
    {
        if !j.is_object() {
            return Err(DecodeError::TypeMismatch);
        }
        let items = match j.member("result") {
            None => {
                return Err(DecodeError::MissingField);
            },
            Some(found) => match found.as_array() {
                Some(items) => items,
                None => {
                    return Err(DecodeError::TypeMismatch);
                },
            },
        };
        let ghost all = items.deep_view();
        let mut result: Vec<Tip> = Vec::new();
        let mut i: usize = 0;
        proof {
            assert(all.take(0).len() == 0);
            assert(result.deep_view() =~= Seq::<TipView>::empty());
        }
        while i < items.len()
            invariant
                i <= items@.len(),
                all == items.deep_view(),
                tips_decoded(all.take(i as int)) == Ok::<Seq<TipView>, DecodeError>(
                    result.deep_view(),
                ),
                ChainTips::decoded(j@) == match tips_decoded(all) {
                    Ok(tips) => Ok::<ChainTipsView, DecodeError>(ChainTipsView { result: tips }),
                    Err(why) => Err(why),
                },
            decreases items@.len() - i,
        {
            let ghost before = result.deep_view();
            proof {
                assert(all.take(i + 1).drop_last() =~= all.take(i as int));
                assert(all.take(i + 1).last() == items@[i as int]@);
            }
            match Tip::from_json(&items[i]) {
                Ok(tip) => {
                    result.push(tip);
                    assert(result.deep_view() =~= before.push(tip@));
                },
                Err(why) => {
                    proof {
                        lemma_tips_failure_stays(all, i + 1);
                    }
                    return Err(why);
                },
            }
            i = i + 1;
        }
        assert(all.take(i as int) =~= all);
        Ok(ChainTips { result })
    }

    /// Writes the tips as an object that holds them under `result`.
    pub fn to_json(&self) -> (j: Json)
        ensures
            j@ == ChainTips::encoded(self@),
    {
        let mut items: Vec<Json> = Vec::new();
        let mut i: usize = 0;
        while i < self.result.len()
            invariant
                i <= self.result@.len(),
                items@.len() == i,
                forall|k: int|
                    0 <= k < i ==> (#[trigger] items@[k])@ == Tip::encoded(self.result@[k]@),
            decreases self.result@.len() - i,
        {
            items.push(self.result[i].to_json());
            i = i + 1;
        }
        let mut members: Vec<(String, Json)> = Vec::new();
        proof {
            lemma_array_view(items);
            assert(items.deep_view() =~= tips_encoded(self@.result));
        }
        members.push(("result".to_owned(), Json::Array(items)));
        proof {
            lemma_object_view(members);
            assert(members.deep_view() =~= ChainTips::encoded(self@)->Object_0);
        }
        Json::Object(members)
    }

    /// Tips that are written and read again are the same tips.
    pub proof fn lemma_round_trip(tips: ChainTipsView)
        ensures
            ChainTips::decoded(ChainTips::encoded(tips)) == Ok::<ChainTipsView, DecodeError>(tips),
    {
        let members = ChainTips::encoded(tips)->Object_0;
        lemma_member_of_distinct(members, 0);
        lemma_tips_round_trip(tips.result);
    }
}

} // verus!
