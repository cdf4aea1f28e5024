//! What the calls about single blocks return.

use crate::error::{ok_view, DecodeError};
use crate::field::{copy_items, copy_optional_text, optional_string_json};
use crate::json::{
    distinct_keys, lemma_last_member_absent, lemma_member_of_distinct, lemma_object_view, Json,
    JsonView,
};
use crate::shape::{first_shape, shape_of, Shape};
use crate::text::{decimal, lemma_integer_of_decimal};
use vstd::prelude::*;

verus! {

/// A block, with what the node knows of its place in the chain.
#[derive(Debug, PartialEq, Eq)]
pub struct Block {
    pub hash: String,
    pub confirmations: i64,
    pub size: i64,
    pub height: i64,
    pub version: i64,
    pub merkleroot: String,
    pub tx: Vec<Json>,
    /// Named `TXID` on the wire.
    pub txid: String,
    pub time: i64,
    pub nonce: i64,
    pub bits: String,
    pub chainwork: String,
    pub previousblockhash: Option<String>,
    pub nextblockhash: Option<String>,
}

/// What a [`Block`] holds.
pub struct BlockView {
    pub hash: Seq<char>,
    pub confirmations: i64,
    pub size: i64,
    pub height: i64,
    pub version: i64,
    pub merkleroot: Seq<char>,
    pub tx: Seq<JsonView>,
    pub txid: Seq<char>,
    pub time: i64,
    pub nonce: i64,
    pub bits: Seq<char>,
    pub chainwork: Seq<char>,
    pub previousblockhash: Option<Seq<char>>,
    pub nextblockhash: Option<Seq<char>>,
}

impl View for Block {
    type V = BlockView;

    open spec fn view(&self) -> BlockView {
        BlockView {
            hash: self.hash@,
            confirmations: self.confirmations,
            size: self.size,
            height: self.height,
            version: self.version,
            merkleroot: self.merkleroot@,
            tx: self.tx.deep_view(),
            txid: self.txid@,
            time: self.time,
            nonce: self.nonce,
            bits: self.bits@,
            chainwork: self.chainwork@,
            previousblockhash: self.previousblockhash.deep_view(),
            nextblockhash: self.nextblockhash.deep_view(),
        }
    }
}

impl DeepView for Block {
    type V = BlockView;

    open spec fn deep_view(&self) -> BlockView {
        self.view()
    }
}

impl Clone for Block {
    /// A copy that holds what the block holds.
    fn clone(&self) -> (copy: Block)
        ensures
            copy@ == self@,
    {
        Block {
            hash: self.hash.clone(),
            confirmations: self.confirmations,
            size: self.size,
            height: self.height,
            version: self.version,
            merkleroot: self.merkleroot.clone(),
            tx: copy_items(&self.tx),
            txid: self.txid.clone(),
            time: self.time,
            nonce: self.nonce,
            bits: self.bits.clone(),
            chainwork: self.chainwork.clone(),
            previousblockhash: copy_optional_text(&self.previousblockhash),
            nextblockhash: copy_optional_text(&self.nextblockhash),
        }
    }
}

impl Block {
    /// The block that the object `j` describes, member by member; the
    /// failure of the first member, in the order of the record, that cannot
    /// be read. What is no object at all is a value of the wrong type.
    pub open spec fn decoded(j: JsonView) -> Result<BlockView, DecodeError> {
        let hash = j.string_field("hash"@);
        let confirmations = j.i64_field("confirmations"@);
        let size = j.i64_field("size"@);
        let height = j.i64_field("height"@);
        let version = j.i64_field("version"@);
        let merkleroot = j.string_field("merkleroot"@);
        let tx = j.items_field("tx"@);
        let txid = j.string_field("TXID"@);
        let time = j.i64_field("time"@);
        let nonce = j.i64_field("nonce"@);
        let bits = j.string_field("bits"@);
        let chainwork = j.string_field("chainwork"@);
        let previousblockhash = j.optional_string_field("previousblockhash"@);
        let nextblockhash = j.optional_string_field("nextblockhash"@);
        if !(j is Object) {
            Err(DecodeError::TypeMismatch)
        } else if hash is Err {
            Err(hash->Err_0)
        } else if confirmations is Err {
            Err(confirmations->Err_0)
        } else if size is Err {
            Err(size->Err_0)
        } else if height is Err {
            Err(height->Err_0)
        } else if version is Err {
            Err(version->Err_0)
        } else if merkleroot is Err {
            Err(merkleroot->Err_0)
        } else if tx is Err {
            Err(tx->Err_0)
        } else if txid is Err {
            Err(txid->Err_0)
        } else if time is Err {
            Err(time->Err_0)
        } else if nonce is Err {
            Err(nonce->Err_0)
        } else if bits is Err {
            Err(bits->Err_0)
        } else if chainwork is Err {
            Err(chainwork->Err_0)
        } else if previousblockhash is Err {
            Err(previousblockhash->Err_0)
        } else if nextblockhash is Err {
            Err(nextblockhash->Err_0)
        } else {
            Ok(
                BlockView {
                    hash: hash->Ok_0,
                    confirmations: confirmations->Ok_0,
                    size: size->Ok_0,
                    height: height->Ok_0,
                    version: version->Ok_0,
                    merkleroot: merkleroot->Ok_0,
                    tx: tx->Ok_0,
                    txid: txid->Ok_0,
                    time: time->Ok_0,
                    nonce: nonce->Ok_0,
                    bits: bits->Ok_0,
                    chainwork: chainwork->Ok_0,
                    previousblockhash: previousblockhash->Ok_0,
                    nextblockhash: nextblockhash->Ok_0,
                },
            )
        }
    }

    /// The object that describes `block`: one member for each field, in the
    /// order of the record, under the name that the field has on the wire.
    /// Reading looks each field up under the same name.
    pub open spec fn encoded(block: BlockView) -> JsonView {
        JsonView::Object(
            seq![
                ("hash"@, JsonView::String(block.hash)),
                ("confirmations"@, JsonView::Number(decimal(block.confirmations as int))),
                ("size"@, JsonView::Number(decimal(block.size as int))),
                ("height"@, JsonView::Number(decimal(block.height as int))),
                ("version"@, JsonView::Number(decimal(block.version as int))),
                ("merkleroot"@, JsonView::String(block.merkleroot)),
                ("tx"@, JsonView::Array(block.tx)),
                ("TXID"@, JsonView::String(block.txid)),
                ("time"@, JsonView::Number(decimal(block.time as int))),
                ("nonce"@, JsonView::Number(decimal(block.nonce as int))),
                ("bits"@, JsonView::String(block.bits)),
                ("chainwork"@, JsonView::String(block.chainwork)),
                ("previousblockhash"@, optional_string_json(block.previousblockhash)),
                ("nextblockhash"@, optional_string_json(block.nextblockhash)),
            ],
        )
    }

    /// Reads a block from the object that describes it.
    pub fn from_json(j: &Json) -> (r: Result<Block, DecodeError>)
        ensures
            ok_view(r) == Block::decoded(j@),
    {
        if !j.is_object() {
            return Err(DecodeError::TypeMismatch);
        }
        let hash = j.string_field("hash")?;
        let confirmations = j.i64_field("confirmations")?;
        let size = j.i64_field("size")?;
        let height = j.i64_field("height")?;
        let version = j.i64_field("version")?;
        let merkleroot = j.string_field("merkleroot")?;
        let tx = j.items_field("tx")?;
        let txid = j.string_field("TXID")?;
        let time = j.i64_field("time")?;
        let nonce = j.i64_field("nonce")?;
        let bits = j.string_field("bits")?;
        let chainwork = j.string_field("chainwork")?;
        let previousblockhash = j.optional_string_field("previousblockhash")?;
        let nextblockhash = j.optional_string_field("nextblockhash")?;
        Ok(
            Block {
                hash,
                confirmations,
                size,
                height,
                version,
                merkleroot,
                tx,
                txid,
                time,
                nonce,
                bits,
                chainwork,
                previousblockhash,
                nextblockhash,
            },
        )
    }

    /// Writes the block as the object that describes it.
    pub fn to_json(&self) -> (j: Json)
        ensures
            j@ == Block::encoded(self@),
    {
        let mut members: Vec<(String, Json)> = Vec::new();
        members.push(("hash".to_owned(), Json::from_text(self.hash.clone())));
        members.push(("confirmations".to_owned(), Json::from_i64(self.confirmations)));
        members.push(("size".to_owned(), Json::from_i64(self.size)));
        members.push(("height".to_owned(), Json::from_i64(self.height)));
        members.push(("version".to_owned(), Json::from_i64(self.version)));
        members.push(("merkleroot".to_owned(), Json::from_text(self.merkleroot.clone())));
        members.push(("tx".to_owned(), Json::from_items(&self.tx)));
        members.push(("TXID".to_owned(), Json::from_text(self.txid.clone())));
        members.push(("time".to_owned(), Json::from_i64(self.time)));
        members.push(("nonce".to_owned(), Json::from_i64(self.nonce)));
        members.push(("bits".to_owned(), Json::from_text(self.bits.clone())));
        members.push(("chainwork".to_owned(), Json::from_text(self.chainwork.clone())));
        members.push(
            ("previousblockhash".to_owned(), Json::from_optional_text(&self.previousblockhash)),
        );
        members.push(("nextblockhash".to_owned(), Json::from_optional_text(&self.nextblockhash)));
        proof {
            lemma_object_view(members);
            assert(members.deep_view() =~= Block::encoded(self@)->Object_0);
        }
        Json::Object(members)
    }

    /// The field `txid` of a block that was read holds the string that the
    /// object holds under the name `TXID`.
    pub proof fn lemma_txid_is_read_from_its_wire_name(j: JsonView)
        requires
            Block::decoded(j) is Ok,
        ensures
            j.member("TXID"@) == Some(JsonView::String(Block::decoded(j)->Ok_0.txid)),
    {
    }

    /// The names of the members differ from each other.
    proof fn lemma_names(block: BlockView)
        ensures
            distinct_keys(Block::encoded(block)->Object_0),
    {
        reveal_strlit("hash");
        reveal_strlit("confirmations");
        reveal_strlit("size");
        reveal_strlit("height");
        reveal_strlit("version");
        reveal_strlit("merkleroot");
        reveal_strlit("tx");
        reveal_strlit("TXID");
        reveal_strlit("time");
        reveal_strlit("nonce");
        reveal_strlit("bits");
        reveal_strlit("chainwork");
        reveal_strlit("previousblockhash");
        reveal_strlit("nextblockhash");
        assert("hash"@.len() == 4 && "hash"@[0] == 'h');
        assert("confirmations"@.len() == 13 && "confirmations"@[0] == 'c');
        assert("size"@.len() == 4 && "size"@[0] == 's');
        assert("height"@.len() == 6);
        assert("version"@.len() == 7);
        assert("merkleroot"@.len() == 10);
        assert("tx"@.len() == 2);
        assert("TXID"@.len() == 4 && "TXID"@[0] == 'T');
        assert("time"@.len() == 4 && "time"@[0] == 't');
        assert("nonce"@.len() == 5);
        assert("bits"@.len() == 4 && "bits"@[0] == 'b');
        assert("chainwork"@.len() == 9);
        assert("previousblockhash"@.len() == 17);
        assert("nextblockhash"@.len() == 13 && "nextblockhash"@[0] == 'n');
    }

    /// A block that is written and read again is the same block.
    pub proof fn lemma_round_trip(block: BlockView)
        ensures
            Block::decoded(Block::encoded(block)) == Ok::<BlockView, DecodeError>(block),
    {
        let members = Block::encoded(block)->Object_0;
        Block::lemma_names(block);
        lemma_member_of_distinct(members, 0);
        lemma_member_of_distinct(members, 1);
        lemma_member_of_distinct(members, 2);
        lemma_member_of_distinct(members, 3);
        lemma_member_of_distinct(members, 4);
        lemma_member_of_distinct(members, 5);
        lemma_member_of_distinct(members, 6);
        lemma_member_of_distinct(members, 7);
        lemma_member_of_distinct(members, 8);
        lemma_member_of_distinct(members, 9);
        lemma_member_of_distinct(members, 10);
        lemma_member_of_distinct(members, 11);
        lemma_member_of_distinct(members, 12);
        lemma_member_of_distinct(members, 13);
        lemma_integer_of_decimal(block.confirmations as int);
        lemma_integer_of_decimal(block.size as int);
        lemma_integer_of_decimal(block.height as int);
        lemma_integer_of_decimal(block.version as int);
        lemma_integer_of_decimal(block.time as int);
        lemma_integer_of_decimal(block.nonce as int);
    }
}

/// A block as the node stores it, written in hexadecimal.
#[derive(Debug, PartialEq, Eq)]
pub struct SerializedBlock {
    pub result: String,
}

/// What a [`SerializedBlock`] holds.
pub struct SerializedBlockView {
    pub result: Seq<char>,
}

impl View for SerializedBlock {
    type V = SerializedBlockView;

    open spec fn view(&self) -> SerializedBlockView {
        SerializedBlockView { result: self.result@ }
    }
}

impl DeepView for SerializedBlock {
    type V = SerializedBlockView;

    open spec fn deep_view(&self) -> SerializedBlockView {
        self.view()
    }
}

impl Clone for SerializedBlock {
    /// A copy that holds what the stored block holds.
    fn clone(&self) -> (copy: SerializedBlock)
        ensures
            copy@ == self@,
    {
        SerializedBlock { result: self.result.clone() }
    }
}

impl SerializedBlock {
    /// The stored block that `j` gives: `j` itself where it is a string, the
    /// string under `result` where it is an object.
    pub open spec fn decoded(j: JsonView) -> Result<SerializedBlockView, DecodeError> {
        match j {
            JsonView::String(text) => Ok(SerializedBlockView { result: text }),
            JsonView::Object(_) => match j.string_field("result"@) {
                Ok(text) => Ok(SerializedBlockView { result: text }),
                Err(why) => Err(why),
            },
            _ => Err(DecodeError::TypeMismatch),
        }
    }

    /// The object that holds `raw` under `result`.
    pub open spec fn encoded(raw: SerializedBlockView) -> JsonView {
        JsonView::Object(seq![("result"@, JsonView::String(raw.result))])
    }

    /// Reads a stored block from a string, or from an object that holds one
    /// under `result`.
    pub fn from_json(j: &Json) -> (r: Result<SerializedBlock, DecodeError>)
        ensures
            ok_view(r) == SerializedBlock::decoded(j@),
    {
        match j.as_string() {
            Some(text) => Ok(SerializedBlock { result: text.clone() }),
            None => {
                if !j.is_object() {
                    return Err(DecodeError::TypeMismatch);
                }
                match j.string_field("result") {
                    Ok(result) => Ok(SerializedBlock { result }),
                    Err(why) => Err(why),
                }
            },
        }
    }

    /// Writes the stored block as an object that holds it under `result`.
    pub fn to_json(&self) -> (j: Json)
        ensures
            j@ == SerializedBlock::encoded(self@),
    {
        let mut members: Vec<(String, Json)> = Vec::new();
        members.push(("result".to_owned(), Json::from_text(self.result.clone())));
        proof {
            lemma_object_view(members);
            assert(members.deep_view() =~= SerializedBlock::encoded(self@)->Object_0);
        }
        Json::Object(members)
    }

    /// A stored block that is written and read again is the same.
    pub proof fn lemma_round_trip(raw: SerializedBlockView)
        ensures
            SerializedBlock::decoded(SerializedBlock::encoded(raw)) == Ok::<
                SerializedBlockView,
                DecodeError,
            >(raw),
    {
        let members = SerializedBlock::encoded(raw)->Object_0;
        lemma_member_of_distinct(members, 0);
    }
}

/// What `getblock` returns: the block in detail where that was asked for,
/// else the block as the node stores it.
#[derive(Debug, PartialEq, Eq)]
pub enum GetBlockReply {
    True(Block),
    False(SerializedBlock),
}

/// What a [`GetBlockReply`] holds.
pub enum GetBlockReplyView {
    True(BlockView),
    False(SerializedBlockView),
}

impl View for GetBlockReply {
    type V = GetBlockReplyView;

    open spec fn view(&self) -> GetBlockReplyView {
        match self {
            GetBlockReply::True(block) => GetBlockReplyView::True(block@),
            GetBlockReply::False(raw) => GetBlockReplyView::False(raw@),
        }
    }
}

impl DeepView for GetBlockReply {
    type V = GetBlockReplyView;

    open spec fn deep_view(&self) -> GetBlockReplyView {
        self.view()
    }
}

impl Clone for GetBlockReply {
    /// A copy that holds what the reply holds.
    fn clone(&self) -> (copy: GetBlockReply)
        ensures
            copy@ == self@,
    {
        match self {
            GetBlockReply::True(block) => GetBlockReply::True(block.clone()),
            GetBlockReply::False(raw) => GetBlockReply::False(raw.clone()),
        }
    }
}

impl GetBlockReply {
    /// The reply that `j` gives. The detailed shape is tried first: where `j`
    /// reads as a block, the reply is that block. Only where it does not is
    /// the simple shape tried. A value of neither shape is refused.
    pub open spec fn decoded(j: JsonView) -> Result<GetBlockReplyView, DecodeError> {
        match shape_of(Block::decoded(j), SerializedBlock::decoded(j)) {
            Ok(Shape::Detailed(block)) => Ok(GetBlockReplyView::True(block)),
            Ok(Shape::Simple(raw)) => Ok(GetBlockReplyView::False(raw)),
            Err(why) => Err(why),
        }
    }

    /// The value that writes `reply`: that of the block or stored block in it.
    pub open spec fn encoded(reply: GetBlockReplyView) -> JsonView {
        match reply {
            GetBlockReplyView::True(block) => Block::encoded(block),
            GetBlockReplyView::False(raw) => SerializedBlock::encoded(raw),
        }
    }

    /// Reads the reply to `getblock`, trying the detailed shape first.
    pub fn from_json(j: &Json) -> (r: Result<GetBlockReply, DecodeError>)
        ensures
            ok_view(r) == GetBlockReply::decoded(j@),
    {
        match first_shape(Block::from_json(j), SerializedBlock::from_json(j)) {
            Ok(Shape::Detailed(block)) => Ok(GetBlockReply::True(block)),
            Ok(Shape::Simple(raw)) => Ok(GetBlockReply::False(raw)),
            Err(why) => Err(why),
        }
    }

    /// Writes the reply as the value that describes what it holds.
    pub fn to_json(&self) -> (j: Json)
        ensures
            j@ == GetBlockReply::encoded(self@),
    {
        match self {
            GetBlockReply::True(block) => block.to_json(),
            GetBlockReply::False(raw) => raw.to_json(),
        }
    }

    /// A value of the detailed shape gives the detailed variant; one of the
    /// simple shape only gives the simple variant; one of neither shape is
    /// refused, and gives no reply at all.
    pub proof fn lemma_shapes(j: JsonView)
        ensures
            Block::decoded(j) is Ok ==> GetBlockReply::decoded(j) == Ok::<
                GetBlockReplyView,
                DecodeError,
            >(GetBlockReplyView::True(Block::decoded(j)->Ok_0)),
            Block::decoded(j) is Err && SerializedBlock::decoded(j) is Ok
                ==> GetBlockReply::decoded(j) == Ok::<GetBlockReplyView, DecodeError>(
                GetBlockReplyView::False(SerializedBlock::decoded(j)->Ok_0),
            ),
            Block::decoded(j) is Err && SerializedBlock::decoded(j) is Err
                ==> GetBlockReply::decoded(j) == Err::<GetBlockReplyView, DecodeError>(
                DecodeError::NoShape,
            ),
    {
    }

    /// A reply that is written and read again is the same reply, of the same
    /// variant.
    pub proof fn lemma_round_trip(reply: GetBlockReplyView)
        ensures
            GetBlockReply::decoded(GetBlockReply::encoded(reply)) == Ok::<
                GetBlockReplyView,
                DecodeError,
            >(reply),
    {
        match reply {
            GetBlockReplyView::True(block) => {
                Block::lemma_round_trip(block);
            },
            GetBlockReplyView::False(raw) => {
                SerializedBlock::lemma_round_trip(raw);
                let members = SerializedBlock::encoded(raw)->Object_0;
                assert("hash"@ != "result"@) by {
                    reveal_strlit("hash");
                    reveal_strlit("result");
                    assert("hash"@.len() == 4 && "result"@.len() == 6);
                }
                lemma_last_member_absent(members, "hash"@);
            },
        }
    }
}

} // verus!
