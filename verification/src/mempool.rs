//! What the calls about the pool of waiting transactions return.

use crate::error::{ok_view, DecodeError};
use crate::field::{copy_texts, lemma_strings_round_trip, strings_json, strings_of, Real};
use crate::json::{
    distinct_keys, lemma_last_member_absent, lemma_member_of_distinct, lemma_object_view, Json,
    JsonView,
};
use crate::shape::{first_shape, shape_of, Shape};
use crate::text::{decimal, is_real_literal, lemma_integer_of_decimal};
use vstd::prelude::*;

verus! {

/// The size of the pool of transactions that wait for a block.
#[derive(Debug, PartialEq, Eq)]
pub struct MemPoolInfo {
    pub size: i64,
    pub bytes: i64,
}

/// What a [`MemPoolInfo`] holds.
pub struct MemPoolInfoView {
    pub size: i64,
    pub bytes: i64,
}

impl View for MemPoolInfo {
    type V = MemPoolInfoView;

    open spec fn view(&self) -> MemPoolInfoView {
        MemPoolInfoView {
            size: self.size,
            bytes: self.bytes,
        }
    }
}

impl DeepView for MemPoolInfo {
    type V = MemPoolInfoView;

    open spec fn deep_view(&self) -> MemPoolInfoView {
        self.view()
    }
}

impl Clone for MemPoolInfo {
    /// A copy that holds what the summary holds.
    fn clone(&self) -> (copy: MemPoolInfo)
        ensures
            copy@ == self@,
    {
        MemPoolInfo {
            size: self.size,
            bytes: self.bytes,
        }
    }
}

impl MemPoolInfo {
    /// The summary that the object `j` describes, member by member; the
    /// failure of the first member, in the order of the record, that cannot
    /// be read. What is no object at all is a value of the wrong type.
    pub open spec fn decoded(j: JsonView) -> Result<MemPoolInfoView, DecodeError> {
        let size = j.i64_field("size"@);
        let bytes = j.i64_field("bytes"@);
        if !(j is Object) {
            Err(DecodeError::TypeMismatch)
        } else if size is Err {
            Err(size->Err_0)
        } else if bytes is Err {
            Err(bytes->Err_0)
        } else {
            Ok(
                MemPoolInfoView {
                    size: size->Ok_0,
                    bytes: bytes->Ok_0,
                },
            )
        }
    }

    /// The object that describes `summary`: one member for each field, in the
    /// order of the record, under the name that the field has on the wire.
    /// Reading looks each field up under the same name.
    pub open spec fn encoded(summary: MemPoolInfoView) -> JsonView {
        JsonView::Object(
            seq![
                ("size"@, JsonView::Number(decimal(summary.size as int))),
                ("bytes"@, JsonView::Number(decimal(summary.bytes as int))),
            ],
        )
    }

    /// Reads a summary from the object that describes it.
    pub fn from_json(j: &Json) -> (r: Result<MemPoolInfo, DecodeError>)
        ensures
            ok_view(r) == MemPoolInfo::decoded(j@),
    {
        if !j.is_object() {
            return Err(DecodeError::TypeMismatch);
        }
        let size = j.i64_field("size")?;
        let bytes = j.i64_field("bytes")?;
        Ok(MemPoolInfo { size, bytes })
    }

    /// Writes the summary as the object that describes it.
    pub fn to_json(&self) -> (j: Json)
        ensures
            j@ == MemPoolInfo::encoded(self@),
    {
        let mut members: Vec<(String, Json)> = Vec::new();
        members.push(("size".to_owned(), Json::from_i64(self.size)));
        members.push(("bytes".to_owned(), Json::from_i64(self.bytes)));
        proof {
            lemma_object_view(members);
            assert(members.deep_view() =~= MemPoolInfo::encoded(self@)->Object_0);
        }
        Json::Object(members)
    }

    /// The names of the members differ from each other.
    proof fn lemma_names(summary: MemPoolInfoView)
        ensures
            distinct_keys(MemPoolInfo::encoded(summary)->Object_0),
    {
        reveal_strlit("size");
        reveal_strlit("bytes");
        assert("size"@.len() == 4);
        assert("bytes"@.len() == 5);
    }

    /// A summary that is written and read again is the same summary.
    pub proof fn lemma_round_trip(summary: MemPoolInfoView)
        ensures
            MemPoolInfo::decoded(MemPoolInfo::encoded(summary)) == Ok::<
                MemPoolInfoView,
                DecodeError,
            >(summary),
    {
        let members = MemPoolInfo::encoded(summary)->Object_0;
        MemPoolInfo::lemma_names(summary);
        lemma_member_of_distinct(members, 0);
        lemma_member_of_distinct(members, 1);
        lemma_integer_of_decimal(summary.size as int);
        lemma_integer_of_decimal(summary.bytes as int);
    }
}

/// A transaction that waits in the pool.
#[derive(Debug, PartialEq, Eq)]
pub struct TxDescription {
    /// Named `TXID` on the wire.
    pub txid: String,
    pub size: i64,
    pub fee: Real,
    pub time: i64,
    pub height: i64,
    pub startingpriority: i64,
    pub currentpriority: i64,
    pub depends: Vec<String>,
}

/// What a [`TxDescription`] holds.
pub struct TxDescriptionView {
    pub txid: Seq<char>,
    pub size: i64,
    pub fee: Seq<char>,
    pub time: i64,
    pub height: i64,
    pub startingpriority: i64,
    pub currentpriority: i64,
    pub depends: Seq<Seq<char>>,
}

impl View for TxDescription {
    type V = TxDescriptionView;

    open spec fn view(&self) -> TxDescriptionView {
        TxDescriptionView {
            txid: self.txid@,
            size: self.size,
            fee: self.fee@,
            time: self.time,
            height: self.height,
            startingpriority: self.startingpriority,
            currentpriority: self.currentpriority,
            depends: self.depends.deep_view(),
        }
    }
}

impl DeepView for TxDescription {
    type V = TxDescriptionView;

    open spec fn deep_view(&self) -> TxDescriptionView {
        self.view()
    }
}

impl Clone for TxDescription {
    /// A copy that holds what the entry holds.
    fn clone(&self) -> (copy: TxDescription)
        ensures
            copy@ == self@,
    {
        TxDescription {
            txid: self.txid.clone(),
            size: self.size,
            fee: self.fee.clone(),
            time: self.time,
            height: self.height,
            startingpriority: self.startingpriority,
            currentpriority: self.currentpriority,
            depends: copy_texts(&self.depends),
        }
    }
}

impl TxDescriptionView {
    /// Whether each number of the record is text that writes a number.
    pub open spec fn well_formed(self) -> bool {
        &&& is_real_literal(self.fee)
    }
}

impl TxDescription {
    /// The entry that the object `j` describes, member by member; the
    /// failure of the first member, in the order of the record, that cannot
    /// be read. What is no object at all is a value of the wrong type.
    pub open spec fn decoded(j: JsonView) -> Result<TxDescriptionView, DecodeError> {
        let txid = j.string_field("TXID"@);
        let size = j.i64_field("size"@);
        let fee = j.real_field("fee"@);
        let time = j.i64_field("time"@);
        let height = j.i64_field("height"@);
        let startingpriority = j.i64_field("startingpriority"@);
        let currentpriority = j.i64_field("currentpriority"@);
        let depends = j.strings_field("depends"@);
        if !(j is Object) {
            Err(DecodeError::TypeMismatch)
        } else if txid is Err {
            Err(txid->Err_0)
        } else if size is Err {
            Err(size->Err_0)
        } else if fee is Err {
            Err(fee->Err_0)
        } else if time is Err {
            Err(time->Err_0)
        } else if height is Err {
            Err(height->Err_0)
        } else if startingpriority is Err {
            Err(startingpriority->Err_0)
        } else if currentpriority is Err {
            Err(currentpriority->Err_0)
        } else if depends is Err {
            Err(depends->Err_0)
        } else {
            Ok(
                TxDescriptionView {
                    txid: txid->Ok_0,
                    size: size->Ok_0,
                    fee: fee->Ok_0,
                    time: time->Ok_0,
                    height: height->Ok_0,
                    startingpriority: startingpriority->Ok_0,
                    currentpriority: currentpriority->Ok_0,
                    depends: depends->Ok_0,
                },
            )
        }
    }

    /// The object that describes `entry`: one member for each field, in the
    /// order of the record, under the name that the field has on the wire.
    /// Reading looks each field up under the same name.
    pub open spec fn encoded(entry: TxDescriptionView) -> JsonView {
        JsonView::Object(
            seq![
                ("TXID"@, JsonView::String(entry.txid)),
                ("size"@, JsonView::Number(decimal(entry.size as int))),
                ("fee"@, JsonView::Number(entry.fee)),
                ("time"@, JsonView::Number(decimal(entry.time as int))),
                ("height"@, JsonView::Number(decimal(entry.height as int))),
                ("startingpriority"@, JsonView::Number(decimal(entry.startingpriority as int))),
                ("currentpriority"@, JsonView::Number(decimal(entry.currentpriority as int))),
                ("depends"@, strings_json(entry.depends)),
            ],
        )
    }

    /// Reads an entry from the object that describes it.
    pub fn from_json(j: &Json) -> (r: Result<TxDescription, DecodeError>)
        ensures
            ok_view(r) == TxDescription::decoded(j@),
    {
        if !j.is_object() {
            return Err(DecodeError::TypeMismatch);
        }
        let txid = j.string_field("TXID")?;
        let size = j.i64_field("size")?;
        let fee = j.real_field("fee")?;
        let time = j.i64_field("time")?;
        let height = j.i64_field("height")?;
        let startingpriority = j.i64_field("startingpriority")?;
        let currentpriority = j.i64_field("currentpriority")?;
        let depends = j.strings_field("depends")?;
        Ok(
            TxDescription {
                txid,
                size,
                fee,
                time,
                height,
                startingpriority,
                currentpriority,
                depends,
            },
        )
    }

    /// Writes the entry as the object that describes it.
    pub fn to_json(&self) -> (j: Json)
        ensures
            j@ == TxDescription::encoded(self@),
            self@.well_formed(),
    {
        let mut members: Vec<(String, Json)> = Vec::new();
        members.push(("TXID".to_owned(), Json::from_text(self.txid.clone())));
        members.push(("size".to_owned(), Json::from_i64(self.size)));
        members.push(("fee".to_owned(), self.fee.to_json()));
        members.push(("time".to_owned(), Json::from_i64(self.time)));
        members.push(("height".to_owned(), Json::from_i64(self.height)));
        members.push(("startingpriority".to_owned(), Json::from_i64(self.startingpriority)));
        members.push(("currentpriority".to_owned(), Json::from_i64(self.currentpriority)));
        members.push(("depends".to_owned(), Json::from_texts(&self.depends)));
        proof {
            lemma_object_view(members);
            assert(members.deep_view() =~= TxDescription::encoded(self@)->Object_0);
        }
        Json::Object(members)
    }

    /// The field `txid` of a transaction that was read holds the string that
    /// the object holds under the name `TXID`.
    pub proof fn lemma_txid_is_read_from_its_wire_name(j: JsonView)
        requires
            TxDescription::decoded(j) is Ok,
        ensures
            j.member("TXID"@) == Some(JsonView::String(TxDescription::decoded(j)->Ok_0.txid)),
    {
    }

    /// The names of the members differ from each other.
    proof fn lemma_names(entry: TxDescriptionView)
        ensures
            distinct_keys(TxDescription::encoded(entry)->Object_0),
    {
        reveal_strlit("TXID");
        reveal_strlit("size");
        reveal_strlit("fee");
        reveal_strlit("time");
        reveal_strlit("height");
        reveal_strlit("startingpriority");
        reveal_strlit("currentpriority");
        reveal_strlit("depends");
        assert("TXID"@.len() == 4 && "TXID"@[0] == 'T');
        assert("size"@.len() == 4 && "size"@[0] == 's');
        assert("fee"@.len() == 3);
        assert("time"@.len() == 4 && "time"@[0] == 't');
        assert("height"@.len() == 6);
        assert("startingpriority"@.len() == 16);
        assert("currentpriority"@.len() == 15);
        assert("depends"@.len() == 7);
    }

    /// An entry that is written and read again is the same entry.
    pub proof fn lemma_round_trip(entry: TxDescriptionView)
        requires
            entry.well_formed(),
        ensures
            TxDescription::decoded(TxDescription::encoded(entry)) == Ok::<
                TxDescriptionView,
                DecodeError,
            >(entry),
    {
        let members = TxDescription::encoded(entry)->Object_0;
        TxDescription::lemma_names(entry);
        lemma_member_of_distinct(members, 0);
        lemma_member_of_distinct(members, 1);
        lemma_member_of_distinct(members, 2);
        lemma_member_of_distinct(members, 3);
        lemma_member_of_distinct(members, 4);
        lemma_member_of_distinct(members, 5);
        lemma_member_of_distinct(members, 6);
        lemma_member_of_distinct(members, 7);
        lemma_integer_of_decimal(entry.size as int);
        lemma_integer_of_decimal(entry.time as int);
        lemma_integer_of_decimal(entry.height as int);
        lemma_integer_of_decimal(entry.startingpriority as int);
        lemma_integer_of_decimal(entry.currentpriority as int);
        lemma_strings_round_trip(entry.depends);
    }
}

/// The identifiers of the transactions that wait in the pool.
#[derive(Debug, PartialEq, Eq)]
pub struct TXIDS {
    pub result: Vec<String>,
}

/// What a [`TXIDS`] holds.
pub struct TXIDSView {
    pub result: Seq<Seq<char>>,
}

impl View for TXIDS {
    type V = TXIDSView;

    open spec fn view(&self) -> TXIDSView {
        TXIDSView { result: self.result.deep_view() }
    }
}

impl DeepView for TXIDS {
    type V = TXIDSView;

    open spec fn deep_view(&self) -> TXIDSView {
        self.view()
    }
}

impl Clone for TXIDS {
    /// A copy that holds the same identifiers.
    fn clone(&self) -> (copy: TXIDS)
        ensures
            copy@ == self@,
    {
        TXIDS { result: copy_texts(&self.result) }
    }
}

impl TXIDS {
    /// The identifiers that `j` gives: those of `j` itself where it is an
    /// array of strings, those under `result` where it is an object.
    pub open spec fn decoded(j: JsonView) -> Result<TXIDSView, DecodeError> {
        match j {
            JsonView::Array(_) => match strings_of(j) {
                Some(texts) => Ok(TXIDSView { result: texts }),
                None => Err(DecodeError::TypeMismatch),
            },
            JsonView::Object(_) => match j.strings_field("result"@) {
                Ok(texts) => Ok(TXIDSView { result: texts }),
                Err(why) => Err(why),
            },
            _ => Err(DecodeError::TypeMismatch),
        }
    }

    /// The object that holds the identifiers under `result`.
    pub open spec fn encoded(ids: TXIDSView) -> JsonView {
        JsonView::Object(seq![("result"@, strings_json(ids.result))])
    }

    /// Reads identifiers from an array of strings, or from an object that
    /// holds one under `result`.
    pub fn from_json(j: &Json) -> (r: Result<TXIDS, DecodeError>)
        ensures
            ok_view(r) == TXIDS::decoded(j@),
    {
        if j.as_array().is_some() {
            match j.to_strings() {
                Some(result) => Ok(TXIDS { result }),
                None => Err(DecodeError::TypeMismatch),
            }
        } else if j.is_object() {
            match j.strings_field("result") {
                Ok(result) => Ok(TXIDS { result }),
                Err(why) => Err(why),
            }
        } else {
            Err(DecodeError::TypeMismatch)
        }
    }

    /// Writes the identifiers as an object that holds them under `result`.
    pub fn to_json(&self) -> (j: Json)
        ensures
            j@ == TXIDS::encoded(self@),
    {
        let mut members: Vec<(String, Json)> = Vec::new();
        members.push(("result".to_owned(), Json::from_texts(&self.result)));
        proof {
            lemma_object_view(members);
            assert(members.deep_view() =~= TXIDS::encoded(self@)->Object_0);
        }
        Json::Object(members)
    }

    /// Identifiers that are written and read again are the same.
    pub proof fn lemma_round_trip(ids: TXIDSView)
        ensures
            TXIDS::decoded(TXIDS::encoded(ids)) == Ok::<TXIDSView, DecodeError>(ids),
    {
        let members = TXIDS::encoded(ids)->Object_0;
        lemma_member_of_distinct(members, 0);
        lemma_strings_round_trip(ids.result);
    }
}

/// What `getrawmempool` returns: a waiting transaction in detail where that
/// was asked for, else the identifiers of those that wait.
#[derive(Debug, PartialEq, Eq)]
pub enum RawMemPool {
    True(TxDescription),
    False(TXIDS),
}

/// What a [`RawMemPool`] holds.
pub enum RawMemPoolView {
    True(TxDescriptionView),
    False(TXIDSView),
}

impl View for RawMemPool {
    type V = RawMemPoolView;

    open spec fn view(&self) -> RawMemPoolView {
        match self {
            RawMemPool::True(entry) => RawMemPoolView::True(entry@),
            RawMemPool::False(ids) => RawMemPoolView::False(ids@),
        }
    }
}

impl DeepView for RawMemPool {
    type V = RawMemPoolView;

    open spec fn deep_view(&self) -> RawMemPoolView {
        self.view()
    }
}

impl Clone for RawMemPool {
    /// A copy that holds what the reply holds.
    fn clone(&self) -> (copy: RawMemPool)
        ensures
            copy@ == self@,
    {
        match self {
            RawMemPool::True(entry) => RawMemPool::True(entry.clone()),
            RawMemPool::False(ids) => RawMemPool::False(ids.clone()),
        }
    }
}

impl RawMemPoolView {
    /// Whether each number of the reply is text that writes a number.
    pub open spec fn well_formed(self) -> bool {
        match self {
            RawMemPoolView::True(entry) => entry.well_formed(),
            RawMemPoolView::False(_) => true,
        }
    }
}

impl RawMemPool {
    /// The reply that `j` gives. The detailed shape is tried first: where `j`
    /// reads as a waiting transaction, the reply is that transaction. Only
    /// where it does not is the simple shape tried. A value of neither shape
    /// is refused.
    pub open spec fn decoded(j: JsonView) -> Result<RawMemPoolView, DecodeError> {
        match shape_of(TxDescription::decoded(j), TXIDS::decoded(j)) {
            Ok(Shape::Detailed(entry)) => Ok(RawMemPoolView::True(entry)),
            Ok(Shape::Simple(ids)) => Ok(RawMemPoolView::False(ids)),
            Err(why) => Err(why),
        }
    }

    /// The value that writes `reply`: that of the transaction or of the
    /// identifiers in it.
    pub open spec fn encoded(reply: RawMemPoolView) -> JsonView {
        match reply {
            RawMemPoolView::True(entry) => TxDescription::encoded(entry),
            RawMemPoolView::False(ids) => TXIDS::encoded(ids),
        }
    }

    /// Reads the reply to `getrawmempool`, trying the detailed shape first.
    pub fn from_json(j: &Json) -> (r: Result<RawMemPool, DecodeError>)
        ensures
            ok_view(r) == RawMemPool::decoded(j@),
    {
        match first_shape(TxDescription::from_json(j), TXIDS::from_json(j)) {
            Ok(Shape::Detailed(entry)) => Ok(RawMemPool::True(entry)),
            Ok(Shape::Simple(ids)) => Ok(RawMemPool::False(ids)),
            Err(why) => Err(why),
        }
    }

    /// Writes the reply as the value that describes what it holds.
    pub fn to_json(&self) -> (j: Json)
        ensures
            j@ == RawMemPool::encoded(self@),
            self@.well_formed(),
    {
        match self {
            RawMemPool::True(entry) => entry.to_json(),
            RawMemPool::False(ids) => ids.to_json(),
        }
    }

    /// A value of the detailed shape gives the detailed variant; one of the
    /// simple shape only gives the simple variant; one of neither shape is
    /// refused, and gives no reply at all.
    pub proof fn lemma_shapes(j: JsonView)
        ensures
            TxDescription::decoded(j) is Ok ==> RawMemPool::decoded(j) == Ok::<
                RawMemPoolView,
                DecodeError,
            >(RawMemPoolView::True(TxDescription::decoded(j)->Ok_0)),
            TxDescription::decoded(j) is Err && TXIDS::decoded(j) is Ok ==> RawMemPool::decoded(j)
                == Ok::<RawMemPoolView, DecodeError>(
                RawMemPoolView::False(TXIDS::decoded(j)->Ok_0),
            ),
            TxDescription::decoded(j) is Err && TXIDS::decoded(j) is Err ==> RawMemPool::decoded(j)
                == Err::<RawMemPoolView, DecodeError>(DecodeError::NoShape),
    {
    }

    /// A reply that is written and read again is the same reply, of the same
    /// variant.
    pub proof fn lemma_round_trip(reply: RawMemPoolView)
        requires
            reply.well_formed(),
        ensures
            RawMemPool::decoded(RawMemPool::encoded(reply)) == Ok::<RawMemPoolView, DecodeError>(
                reply,
            ),
    {
        match reply {
            RawMemPoolView::True(entry) => {
                TxDescription::lemma_round_trip(entry);
            },
            RawMemPoolView::False(ids) => {
                TXIDS::lemma_round_trip(ids);
                let members = TXIDS::encoded(ids)->Object_0;
                assert("TXID"@ != "result"@) by {
                    reveal_strlit("TXID");
                    reveal_strlit("result");
                    assert("TXID"@.len() == 4 && "result"@.len() == 6);
                }
                lemma_last_member_absent(members, "TXID"@);
            },
        }
    }
}

} // verus!
