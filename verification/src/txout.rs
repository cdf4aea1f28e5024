//! What the calls about outputs that no transaction has spent return.

use crate::error::{ok_view, DecodeError};
use crate::field::{copy_texts, lemma_strings_round_trip, strings_json, Real};
use crate::json::{distinct_keys, lemma_member_of_distinct, lemma_object_view, Json, JsonView};
use crate::text::{decimal, is_real_literal, lemma_integer_of_decimal};
use vstd::prelude::*;

verus! {

/// The script that guards an output.
#[derive(Debug, PartialEq, Eq)]
pub struct ScriptPubKey {
    /// Named `asm` on the wire.
    pub assembly: String,
    pub hex: String,
    /// Named `regSigs` on the wire.
    pub reqsigs: i64,
    /// Named `type` on the wire.
    pub scripttype: String,
    pub addresses: Vec<String>,
}

/// What a [`ScriptPubKey`] holds.
pub struct ScriptPubKeyView {
    pub assembly: Seq<char>,
    pub hex: Seq<char>,
    pub reqsigs: i64,
    pub scripttype: Seq<char>,
    pub addresses: Seq<Seq<char>>,
}

impl View for ScriptPubKey {
    type V = ScriptPubKeyView;

    open spec fn view(&self) -> ScriptPubKeyView {
        ScriptPubKeyView {
            assembly: self.assembly@,
            hex: self.hex@,
            reqsigs: self.reqsigs,
            scripttype: self.scripttype@,
            addresses: self.addresses.deep_view(),
        }
    }
}

impl DeepView for ScriptPubKey {
    type V = ScriptPubKeyView;

    open spec fn deep_view(&self) -> ScriptPubKeyView {
        self.view()
    }
}

impl Clone for ScriptPubKey {
    /// A copy that holds what the script holds.
    fn clone(&self) -> (copy: ScriptPubKey)
        ensures
            copy@ == self@,
    {
        ScriptPubKey {
            assembly: self.assembly.clone(),
            hex: self.hex.clone(),
            reqsigs: self.reqsigs,
            scripttype: self.scripttype.clone(),
            addresses: copy_texts(&self.addresses),
        }
    }
}

impl ScriptPubKey {
    /// The script that the object `j` describes, member by member; the
    /// failure of the first member, in the order of the record, that cannot
    /// be read. What is no object at all is a value of the wrong type.
    pub open spec fn decoded(j: JsonView) -> Result<ScriptPubKeyView, DecodeError> {
        let assembly = j.string_field("asm"@);
        let hex = j.string_field("hex"@);
        let reqsigs = j.i64_field("regSigs"@);
        let scripttype = j.string_field("type"@);
        let addresses = j.strings_field("addresses"@);
        if !(j is Object) {
            Err(DecodeError::TypeMismatch)
        } else if assembly is Err {
            Err(assembly->Err_0)
        } else if hex is Err {
            Err(hex->Err_0)
        } else if reqsigs is Err {
            Err(reqsigs->Err_0)
        } else if scripttype is Err {
            Err(scripttype->Err_0)
        } else if addresses is Err {
            Err(addresses->Err_0)
        } else {
            Ok(
                ScriptPubKeyView {
                    assembly: assembly->Ok_0,
                    hex: hex->Ok_0,
                    reqsigs: reqsigs->Ok_0,
                    scripttype: scripttype->Ok_0,
                    addresses: addresses->Ok_0,
                },
            )
        }
    }

    /// The object that describes `script`: one member for each field, in the
    /// order of the record, under the name that the field has on the wire.
    /// Reading looks each field up under the same name.
    pub open spec fn encoded(script: ScriptPubKeyView) -> JsonView {
        JsonView::Object(
            seq![
                ("asm"@, JsonView::String(script.assembly)),
                ("hex"@, JsonView::String(script.hex)),
                ("regSigs"@, JsonView::Number(decimal(script.reqsigs as int))),
                ("type"@, JsonView::String(script.scripttype)),
                ("addresses"@, strings_json(script.addresses)),
            ],
        )
    }

    /// The script under a member that must be there.
    pub open spec fn decoded_member(found: Option<JsonView>) -> Result<
        ScriptPubKeyView,
        DecodeError,
    > {
        match found {
            None => Err(DecodeError::MissingField),
            Some(j) => ScriptPubKey::decoded(j),
        }
    }

    /// Reads a script from the object that describes it.
    pub fn from_json(j: &Json) -> (r: Result<ScriptPubKey, DecodeError>)
        ensures
            ok_view(r) == ScriptPubKey::decoded(j@),
    {
        if !j.is_object() {
            return Err(DecodeError::TypeMismatch);
        }
        let assembly = j.string_field("asm")?;
        let hex = j.string_field("hex")?;
        let reqsigs = j.i64_field("regSigs")?;
        let scripttype = j.string_field("type")?;
        let addresses = j.strings_field("addresses")?;
        Ok(ScriptPubKey { assembly, hex, reqsigs, scripttype, addresses })
    }

    /// Reads a script from a member that must be there.
    pub fn from_member(found: Option<&Json>) -> (r: Result<ScriptPubKey, DecodeError>)
        ensures
            ok_view(r) == ScriptPubKey::decoded_member(found.deep_view()),
    {
        match found {
            None => Err(DecodeError::MissingField),
            Some(j) => ScriptPubKey::from_json(j),
        }
    }

    /// Writes the script as the object that describes it.
    pub fn to_json(&self) -> (j: Json)
        ensures
            j@ == ScriptPubKey::encoded(self@),
    {
        let mut members: Vec<(String, Json)> = Vec::new();
        members.push(("asm".to_owned(), Json::from_text(self.assembly.clone())));
        members.push(("hex".to_owned(), Json::from_text(self.hex.clone())));
        members.push(("regSigs".to_owned(), Json::from_i64(self.reqsigs)));
        members.push(("type".to_owned(), Json::from_text(self.scripttype.clone())));
        members.push(("addresses".to_owned(), Json::from_texts(&self.addresses)));
        proof {
            lemma_object_view(members);
            assert(members.deep_view() =~= ScriptPubKey::encoded(self@)->Object_0);
        }
        Json::Object(members)
    }

    /// The names of the members differ from each other.
    proof fn lemma_names(script: ScriptPubKeyView)
        ensures
            distinct_keys(ScriptPubKey::encoded(script)->Object_0),
    {
        reveal_strlit("asm");
        reveal_strlit("hex");
        reveal_strlit("regSigs");
        reveal_strlit("type");
        reveal_strlit("addresses");
        assert("asm"@.len() == 3 && "asm"@[0] == 'a');
        assert("hex"@.len() == 3 && "hex"@[0] == 'h');
        assert("regSigs"@.len() == 7);
        assert("type"@.len() == 4);
        assert("addresses"@.len() == 9);
    }

    /// A script that is written and read again is the same script.
    pub proof fn lemma_round_trip(script: ScriptPubKeyView)
        ensures
            ScriptPubKey::decoded(ScriptPubKey::encoded(script)) == Ok::<
                ScriptPubKeyView,
                DecodeError,
            >(script),
    {
        let members = ScriptPubKey::encoded(script)->Object_0;
        ScriptPubKey::lemma_names(script);
        lemma_member_of_distinct(members, 0);
        lemma_member_of_distinct(members, 1);
        lemma_member_of_distinct(members, 2);
        lemma_member_of_distinct(members, 3);
        lemma_member_of_distinct(members, 4);
        lemma_integer_of_decimal(script.reqsigs as int);
        lemma_strings_round_trip(script.addresses);
    }
}

/// An output that no transaction has spent.
#[derive(Debug, PartialEq, Eq)]
pub struct TxOut {
    pub bestblock: String,
    pub confirmations: i64,
    pub value: Real,
    /// Named `scriptPubKey` on the wire.
    pub scriptpubkey: ScriptPubKey,
    pub version: i64,
    pub coinbase: bool,
}

/// What a [`TxOut`] holds.
pub struct TxOutView {
    pub bestblock: Seq<char>,
    pub confirmations: i64,
    pub value: Seq<char>,
    pub scriptpubkey: ScriptPubKeyView,
    pub version: i64,
    pub coinbase: bool,
}

impl View for TxOut {
    type V = TxOutView;

    open spec fn view(&self) -> TxOutView {
        TxOutView {
            bestblock: self.bestblock@,
            confirmations: self.confirmations,
            value: self.value@,
            scriptpubkey: self.scriptpubkey@,
            version: self.version,
            coinbase: self.coinbase,
        }
    }
}

impl DeepView for TxOut {
    type V = TxOutView;

    open spec fn deep_view(&self) -> TxOutView {
        self.view()
    }
}

impl Clone for TxOut {
    /// A copy that holds what the output holds.
    fn clone(&self) -> (copy: TxOut)
        ensures
            copy@ == self@,
    {
        TxOut {
            bestblock: self.bestblock.clone(),
            confirmations: self.confirmations,
            value: self.value.clone(),
            scriptpubkey: self.scriptpubkey.clone(),
            version: self.version,
            coinbase: self.coinbase,
        }
    }
}

impl TxOutView {
    /// Whether each number of the record is text that writes a number.
    pub open spec fn well_formed(self) -> bool {
        &&& is_real_literal(self.value)
    }
}

impl TxOut {
    /// The output that the object `j` describes, member by member; the
    /// failure of the first member, in the order of the record, that cannot
    /// be read. What is no object at all is a value of the wrong type.
    pub open spec fn decoded(j: JsonView) -> Result<TxOutView, DecodeError> {
        let bestblock = j.string_field("bestblock"@);
        let confirmations = j.i64_field("confirmations"@);
        let value = j.real_field("value"@);
        let scriptpubkey = ScriptPubKey::decoded_member(j.member("scriptPubKey"@));
        let version = j.i64_field("version"@);
        let coinbase = j.bool_field("coinbase"@);
        if !(j is Object) {
            Err(DecodeError::TypeMismatch)
        } else if bestblock is Err {
            Err(bestblock->Err_0)
        } else if confirmations is Err {
            Err(confirmations->Err_0)
        } else if value is Err {
            Err(value->Err_0)
        } else if scriptpubkey is Err {
            Err(scriptpubkey->Err_0)
        } else if version is Err {
            Err(version->Err_0)
        } else if coinbase is Err {
            Err(coinbase->Err_0)
        } else {
            Ok(
                TxOutView {
                    bestblock: bestblock->Ok_0,
                    confirmations: confirmations->Ok_0,
                    value: value->Ok_0,
                    scriptpubkey: scriptpubkey->Ok_0,
                    version: version->Ok_0,
                    coinbase: coinbase->Ok_0,
                },
            )
        }
    }

    /// The object that describes `output`: one member for each field, in the
    /// order of the record, under the name that the field has on the wire.
    /// Reading looks each field up under the same name.
    pub open spec fn encoded(output: TxOutView) -> JsonView {
        JsonView::Object(
            seq![
                ("bestblock"@, JsonView::String(output.bestblock)),
                ("confirmations"@, JsonView::Number(decimal(output.confirmations as int))),
                ("value"@, JsonView::Number(output.value)),
                ("scriptPubKey"@, ScriptPubKey::encoded(output.scriptpubkey)),
                ("version"@, JsonView::Number(decimal(output.version as int))),
                ("coinbase"@, JsonView::Bool(output.coinbase)),
            ],
        )
    }

    /// Reads an output from the object that describes it.
    pub fn from_json(j: &Json) -> (r: Result<TxOut, DecodeError>)
        ensures
            ok_view(r) == TxOut::decoded(j@),
    {
        if !j.is_object() {
            return Err(DecodeError::TypeMismatch);
        }
        let bestblock = j.string_field("bestblock")?;
        let confirmations = j.i64_field("confirmations")?;
        let value = j.real_field("value")?;
        let scriptpubkey = ScriptPubKey::from_member(j.member("scriptPubKey"))?;
        let version = j.i64_field("version")?;
        let coinbase = j.bool_field("coinbase")?;
        Ok(TxOut { bestblock, confirmations, value, scriptpubkey, version, coinbase })
    }

    /// Writes the output as the object that describes it.
    pub fn to_json(&self) -> (j: Json)
        ensures
            j@ == TxOut::encoded(self@),
            self@.well_formed(),
    {
        let mut members: Vec<(String, Json)> = Vec::new();
        members.push(("bestblock".to_owned(), Json::from_text(self.bestblock.clone())));
        members.push(("confirmations".to_owned(), Json::from_i64(self.confirmations)));
        members.push(("value".to_owned(), self.value.to_json()));
        members.push(("scriptPubKey".to_owned(), self.scriptpubkey.to_json()));
        members.push(("version".to_owned(), Json::from_i64(self.version)));
        members.push(("coinbase".to_owned(), Json::from_bool(self.coinbase)));
        proof {
            lemma_object_view(members);
            assert(members.deep_view() =~= TxOut::encoded(self@)->Object_0);
        }
        Json::Object(members)
    }

    /// The field `scriptpubkey` of an output that was read holds the script
    /// that the object holds under the name `scriptPubKey`.
    pub proof fn lemma_script_is_read_from_its_wire_name(j: JsonView)
        requires
            TxOut::decoded(j) is Ok,
        ensures
            j.member("scriptPubKey"@) is Some,
            ScriptPubKey::decoded(j.member("scriptPubKey"@)->0) == Ok::<
                ScriptPubKeyView,
                DecodeError,
            >(TxOut::decoded(j)->Ok_0.scriptpubkey),
    {
    }

    /// The names of the members differ from each other.
    proof fn lemma_names(output: TxOutView)
        ensures
            distinct_keys(TxOut::encoded(output)->Object_0),
    {
        reveal_strlit("bestblock");
        reveal_strlit("confirmations");
        reveal_strlit("value");
        reveal_strlit("scriptPubKey");
        reveal_strlit("version");
        reveal_strlit("coinbase");
        assert("bestblock"@.len() == 9);
        assert("confirmations"@.len() == 13);
        assert("value"@.len() == 5);
        assert("scriptPubKey"@.len() == 12);
        assert("version"@.len() == 7);
        assert("coinbase"@.len() == 8);
    }

    /// An output that is written and read again is the same output.
    pub proof fn lemma_round_trip(output: TxOutView)
        requires
            output.well_formed(),
        ensures
            TxOut::decoded(TxOut::encoded(output)) == Ok::<TxOutView, DecodeError>(output),
    {
        let members = TxOut::encoded(output)->Object_0;
        TxOut::lemma_names(output);
        lemma_member_of_distinct(members, 0);
        lemma_member_of_distinct(members, 1);
        lemma_member_of_distinct(members, 2);
        lemma_member_of_distinct(members, 3);
        lemma_member_of_distinct(members, 4);
        lemma_member_of_distinct(members, 5);
        lemma_integer_of_decimal(output.confirmations as int);
        ScriptPubKey::lemma_round_trip(output.scriptpubkey);
        lemma_integer_of_decimal(output.version as int);
    }
}

/// A summary of all the outputs that no transaction has spent.
#[derive(Debug, PartialEq, Eq)]
pub struct TxOutSetInfo {
    pub height: i64,
    pub bestblock: String,
    pub transactions: i64,
    pub txouts: i64,
    pub bytes_serialized: i64,
    pub hash_serialized: String,
    pub total_amount: Real,
}

/// What a [`TxOutSetInfo`] holds.
pub struct TxOutSetInfoView {
    pub height: i64,
    pub bestblock: Seq<char>,
    pub transactions: i64,
    pub txouts: i64,
    pub bytes_serialized: i64,
    pub hash_serialized: Seq<char>,
    pub total_amount: Seq<char>,
}

impl View for TxOutSetInfo {
    type V = TxOutSetInfoView;

    open spec fn view(&self) -> TxOutSetInfoView {
        TxOutSetInfoView {
            height: self.height,
            bestblock: self.bestblock@,
            transactions: self.transactions,
            txouts: self.txouts,
            bytes_serialized: self.bytes_serialized,
            hash_serialized: self.hash_serialized@,
            total_amount: self.total_amount@,
        }
    }
}

impl DeepView for TxOutSetInfo {
    type V = TxOutSetInfoView;

    open spec fn deep_view(&self) -> TxOutSetInfoView {
        self.view()
    }
}

impl Clone for TxOutSetInfo {
    /// A copy that holds what the summary holds.
    fn clone(&self) -> (copy: TxOutSetInfo)
        ensures
            copy@ == self@,
    {
        TxOutSetInfo {
            height: self.height,
            bestblock: self.bestblock.clone(),
            transactions: self.transactions,
            txouts: self.txouts,
            bytes_serialized: self.bytes_serialized,
            hash_serialized: self.hash_serialized.clone(),
            total_amount: self.total_amount.clone(),
        }
    }
}

impl TxOutSetInfoView {
    /// Whether each number of the record is text that writes a number.
    pub open spec fn well_formed(self) -> bool {
        &&& is_real_literal(self.total_amount)
    }
}

impl TxOutSetInfo {
    /// The summary that the object `j` describes, member by member; the
    /// failure of the first member, in the order of the record, that cannot
    /// be read. What is no object at all is a value of the wrong type.
    pub open spec fn decoded(j: JsonView) -> Result<TxOutSetInfoView, DecodeError> {
        let height = j.i64_field("height"@);
        let bestblock = j.string_field("bestblock"@);
        let transactions = j.i64_field("transactions"@);
        let txouts = j.i64_field("txouts"@);
        let bytes_serialized = j.i64_field("bytes_serialized"@);
        let hash_serialized = j.string_field("hash_serialized"@);
        let total_amount = j.real_field("total_amount"@);
        if !(j is Object) {
            Err(DecodeError::TypeMismatch)
        } else if height is Err {
            Err(height->Err_0)
        } else if bestblock is Err {
            Err(bestblock->Err_0)
        } else if transactions is Err {
            Err(transactions->Err_0)
        } else if txouts is Err {
            Err(txouts->Err_0)
        } else if bytes_serialized is Err {
            Err(bytes_serialized->Err_0)
        } else if hash_serialized is Err {
            Err(hash_serialized->Err_0)
        } else if total_amount is Err {
            Err(total_amount->Err_0)
        } else {
            Ok(
                TxOutSetInfoView {
                    height: height->Ok_0,
                    bestblock: bestblock->Ok_0,
                    transactions: transactions->Ok_0,
                    txouts: txouts->Ok_0,
                    bytes_serialized: bytes_serialized->Ok_0,
                    hash_serialized: hash_serialized->Ok_0,
                    total_amount: total_amount->Ok_0,
                },
            )
        }
    }

    /// The object that describes `summary`: one member for each field, in the
    /// order of the record, under the name that the field has on the wire.
    /// Reading looks each field up under the same name.
    pub open spec fn encoded(summary: TxOutSetInfoView) -> JsonView {
        JsonView::Object(
            seq![
                ("height"@, JsonView::Number(decimal(summary.height as int))),
                ("bestblock"@, JsonView::String(summary.bestblock)),
                ("transactions"@, JsonView::Number(decimal(summary.transactions as int))),
                ("txouts"@, JsonView::Number(decimal(summary.txouts as int))),
                ("bytes_serialized"@, JsonView::Number(decimal(summary.bytes_serialized as int))),
                ("hash_serialized"@, JsonView::String(summary.hash_serialized)),
                ("total_amount"@, JsonView::Number(summary.total_amount)),
            ],
        )
    }

    /// Reads a summary from the object that describes it.
    pub fn from_json(j: &Json) -> (r: Result<TxOutSetInfo, DecodeError>)
        ensures
            ok_view(r) == TxOutSetInfo::decoded(j@),
    {
        if !j.is_object() {
            return Err(DecodeError::TypeMismatch);
        }
        let height = j.i64_field("height")?;
        let bestblock = j.string_field("bestblock")?;
        let transactions = j.i64_field("transactions")?;
        let txouts = j.i64_field("txouts")?;
        let bytes_serialized = j.i64_field("bytes_serialized")?;
        let hash_serialized = j.string_field("hash_serialized")?;
        let total_amount = j.real_field("total_amount")?;
        Ok(
            TxOutSetInfo {
                height,
                bestblock,
                transactions,
                txouts,
                bytes_serialized,
                hash_serialized,
                total_amount,
            },
        )
    }

    /// Writes the summary as the object that describes it.
    pub fn to_json(&self) -> (j: Json)
        ensures
            j@ == TxOutSetInfo::encoded(self@),
            self@.well_formed(),
    {
        let mut members: Vec<(String, Json)> = Vec::new();
        members.push(("height".to_owned(), Json::from_i64(self.height)));
        members.push(("bestblock".to_owned(), Json::from_text(self.bestblock.clone())));
        members.push(("transactions".to_owned(), Json::from_i64(self.transactions)));
        members.push(("txouts".to_owned(), Json::from_i64(self.txouts)));
        members.push(("bytes_serialized".to_owned(), Json::from_i64(self.bytes_serialized)));
        members.push(("hash_serialized".to_owned(), Json::from_text(self.hash_serialized.clone())));
        members.push(("total_amount".to_owned(), self.total_amount.to_json()));
        proof {
            lemma_object_view(members);
            assert(members.deep_view() =~= TxOutSetInfo::encoded(self@)->Object_0);
        }
        Json::Object(members)
    }

    /// The names of the members differ from each other.
    proof fn lemma_names(summary: TxOutSetInfoView)
        ensures
            distinct_keys(TxOutSetInfo::encoded(summary)->Object_0),
    {
        reveal_strlit("height");
        reveal_strlit("bestblock");
        reveal_strlit("transactions");
        reveal_strlit("txouts");
        reveal_strlit("bytes_serialized");
        reveal_strlit("hash_serialized");
        reveal_strlit("total_amount");
        assert("height"@.len() == 6 && "height"@[0] == 'h');
        assert("bestblock"@.len() == 9);
        assert("transactions"@.len() == 12 && "transactions"@[0] == 't');
        assert("transactions"@[1] == 'r');
        assert("txouts"@.len() == 6 && "txouts"@[0] == 't');
        assert("bytes_serialized"@.len() == 16);
        assert("hash_serialized"@.len() == 15);
        assert("total_amount"@.len() == 12 && "total_amount"@[0] == 't');
        assert("total_amount"@[1] == 'o');
    }

    /// A summary that is written and read again is the same summary.
    pub proof fn lemma_round_trip(summary: TxOutSetInfoView)
        requires
            summary.well_formed(),
        ensures
            TxOutSetInfo::decoded(TxOutSetInfo::encoded(summary)) == Ok::<
                TxOutSetInfoView,
                DecodeError,
            >(summary),
    {
        let members = TxOutSetInfo::encoded(summary)->Object_0;
        TxOutSetInfo::lemma_names(summary);
        lemma_member_of_distinct(members, 0);
        lemma_member_of_distinct(members, 1);
        lemma_member_of_distinct(members, 2);
        lemma_member_of_distinct(members, 3);
        lemma_member_of_distinct(members, 4);
        lemma_member_of_distinct(members, 5);
        lemma_member_of_distinct(members, 6);
        lemma_integer_of_decimal(summary.height as int);
        lemma_integer_of_decimal(summary.transactions as int);
        lemma_integer_of_decimal(summary.txouts as int);
        lemma_integer_of_decimal(summary.bytes_serialized as int);
    }
}

} // verus!
