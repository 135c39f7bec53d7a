//! Transfer bodies: the input and output records, the proofs, the memos for
//! tracers and the memos for owners.

use vstd::prelude::*;
use noah_api::xfr::structs::{TracerMemo, XfrProofs};
use crate::blindassetrecord::{
    lemma_record_round_trip,
    BlindAssetRecord,
    NoahBlindAssetRecord,
    NoahRecordView,
    RecordView,
};
use crate::engine;
use crate::error::XfrError;
use crate::ownermemo::{
    lemma_owner_memo_round_trip,
    NoahOwnerMemo,
    NoahOwnerMemoView,
    OwnerMemo,
    OwnerMemoView,
};

verus! {

/// The items of `s` converted by `f` in their order, or the error of the
/// first item that `f` refuses.
pub open spec fn try_map<A, B>(s: Seq<A>, f: spec_fn(A) -> Result<B, XfrError>) -> Result<
    Seq<B>,
    XfrError,
>
    decreases s.len(),
{
    if s.len() == 0 {
        Ok(Seq::empty())
    } else {
        match try_map(s.drop_last(), f) {
            Err(e) => Err(e),
            Ok(converted) => match f(s.last()) {
                Err(e) => Err(e),
                Ok(item) => Ok(converted.push(item)),
            },
        }
    }
}

/// One more item is converted after those before it.
pub proof fn lemma_try_map_step<A, B>(s: Seq<A>, f: spec_fn(A) -> Result<B, XfrError>, i: int)
    requires
        0 <= i < s.len(),
    ensures
        try_map(s.take(i + 1), f) == (match try_map(s.take(i), f) {
            Err(e) => Err::<Seq<B>, _>(e),
            Ok(converted) => match f(s[i]) {
                Err(e) => Err(e),
                Ok(item) => Ok(converted.push(item)),
            },
        }),
{
    assert(s.take(i + 1).drop_last() =~= s.take(i));
}

/// An error among the first items is the error of the whole.
pub proof fn lemma_try_map_prefix_error<A, B>(
    s: Seq<A>,
    f: spec_fn(A) -> Result<B, XfrError>,
    i: int,
)
    requires
        0 <= i <= s.len(),
        try_map(s.take(i), f) is Err,
    ensures
        try_map(s, f) == try_map(s.take(i), f),
    decreases s.len() - i,
{
    if i == s.len() {
        assert(s.take(i) =~= s);
    } else {
        lemma_try_map_step(s, f, i);
        lemma_try_map_prefix_error(s, f, i + 1);
    }
}

/// A conversion succeeds where every item converts, and then it keeps the
/// length and the order: each place holds what `f` made of the item there.
pub proof fn lemma_try_map_ok<A, B>(s: Seq<A>, f: spec_fn(A) -> Result<B, XfrError>)
    ensures
        try_map(s, f) is Ok <==> (forall|i: int| 0 <= i < s.len() ==> (#[trigger] f(s[i])) is Ok),
        try_map(s, f) is Ok ==> try_map(s, f)->Ok_0.len() == s.len() && (forall|i: int|
            0 <= i < s.len() ==> f(s[i]) == Ok::<_, XfrError>(
                #[trigger] try_map(s, f)->Ok_0[i],
            )),
    decreases s.len(),
{
    if s.len() > 0 {
        let front = s.drop_last();
        lemma_try_map_ok(front, f);
        assert(forall|i: int| 0 <= i < front.len() ==> front[i] == s[i]);
        if try_map(s, f) is Ok {
            assert forall|i: int| 0 <= i < s.len() implies (#[trigger] f(s[i])) is Ok by {
                if i < front.len() {
                    assert(f(front[i]) is Ok);
                }
            }
        }
        if forall|i: int| 0 <= i < s.len() ==> (#[trigger] f(s[i])) is Ok {
            assert forall|i: int| 0 <= i < front.len() implies (#[trigger] f(front[i])) is Ok by {
                assert(f(s[i]) is Ok);
            }
            assert(f(s[s.len() - 1]) is Ok);
        }
    }
}

/// The conversion of a record of the engine, as a function.
pub open spec fn record_from_noah() -> spec_fn(NoahRecordView) -> Result<RecordView, XfrError> {
    |value: NoahRecordView| RecordView::from_noah(value)
}

/// The engine's memo for an owner memo that may be absent.
pub open spec fn memo_into_noah(memo: Option<OwnerMemoView>) -> Option<NoahOwnerMemoView> {
    match memo {
        Some(m) => Some(m.into_noah()),
        None => None,
    }
}

/// The owner memo for an engine's memo that may be absent.
pub open spec fn memo_from_noah(value: Option<NoahOwnerMemoView>) -> Result<
    Option<OwnerMemoView>,
    XfrError,
> {
    match value {
        Some(v) => match OwnerMemoView::from_noah(v) {
            Ok(m) => Ok(Some(m)),
            Err(e) => Err(e),
        },
        None => Ok(None),
    }
}

/// The conversion of an engine's memo that may be absent, as a function.
pub open spec fn optional_memo_from_noah() -> spec_fn(Option<NoahOwnerMemoView>) -> Result<
    Option<OwnerMemoView>,
    XfrError,
> {
    |value: Option<NoahOwnerMemoView>| memo_from_noah(value)
}

/// What a list of records holds.
pub open spec fn records_view(records: Seq<BlindAssetRecord>) -> Seq<RecordView> {
    records.map_values(|r: BlindAssetRecord| r@)
}

/// What a list of records of the engine holds.
pub open spec fn noah_records_view(records: Seq<NoahBlindAssetRecord>) -> Seq<NoahRecordView> {
    records.map_values(|r: NoahBlindAssetRecord| r@)
}

/// What an owner memo that may be absent holds.
pub open spec fn memo_view(memo: Option<OwnerMemo>) -> Option<OwnerMemoView> {
    match memo {
        Some(m) => Some(m@),
        None => None,
    }
}

/// What an engine's memo that may be absent holds.
pub open spec fn noah_memo_view(memo: Option<NoahOwnerMemo>) -> Option<NoahOwnerMemoView> {
    match memo {
        Some(m) => Some(m@),
        None => None,
    }
}

/// What a list of optional owner memos holds.
pub open spec fn memos_view(memos: Seq<Option<OwnerMemo>>) -> Seq<Option<OwnerMemoView>> {
    memos.map_values(|m: Option<OwnerMemo>| memo_view(m))
}

/// What a list of optional memos of the engine holds.
pub open spec fn noah_memos_view(memos: Seq<Option<NoahOwnerMemo>>) -> Seq<
    Option<NoahOwnerMemoView>,
> {
    memos.map_values(|m: Option<NoahOwnerMemo>| noah_memo_view(m))
}

/// What the lists of tracer memos hold.
pub open spec fn tracer_memos_view(memos: Seq<Vec<TracerMemo>>) -> Seq<Seq<TracerMemo>> {
    memos.map_values(|m: Vec<TracerMemo>| m@)
}

/// What a transfer body holds.
pub struct BodyView {
    /// The input records, in order.
    pub inputs: Seq<RecordView>,
    /// The output records, in order.
    pub outputs: Seq<RecordView>,
    /// The proofs, which are not read here.
    pub proofs: XfrProofs,
    /// The lists of tracer memos, which are not read here.
    pub asset_tracing_memos: Seq<Seq<TracerMemo>>,
    /// The owner memos, one place for each output.
    pub owners_memos: Seq<Option<OwnerMemoView>>,
}

/// What the engine's transfer body holds.
pub struct NoahBodyView {
    /// The input records, in order.
    pub inputs: Seq<NoahRecordView>,
    /// The output records, in order.
    pub outputs: Seq<NoahRecordView>,
    /// The proofs.
    pub proofs: XfrProofs,
    /// The lists of tracer memos.
    pub asset_tracing_memos: Seq<Seq<TracerMemo>>,
    /// The owner memos, one place for each output.
    pub owners_memos: Seq<Option<NoahOwnerMemoView>>,
}

impl BodyView {
    /// There is one place for a memo for each output, and a memo is present
    /// exactly where the output has something confidential.
    pub open spec fn memos_follow_outputs(self) -> bool {
        &&& self.owners_memos.len() == self.outputs.len()
        &&& forall|i: int|
            0 <= i < self.outputs.len() ==> ((#[trigger] self.owners_memos[i]) is Some
                <==> !self.outputs[i].is_public())
    }

    /// Every record and every memo that is present is well formed, and
    /// there is one place for a memo for each output.
    pub open spec fn wf(self) -> bool {
        &&& self.owners_memos.len() == self.outputs.len()
        &&& forall|i: int| 0 <= i < self.inputs.len() ==> (#[trigger] self.inputs[i]).wf()
        &&& forall|i: int| 0 <= i < self.outputs.len() ==> (#[trigger] self.outputs[i]).wf()
        &&& forall|i: int|
            0 <= i < self.owners_memos.len() ==> ((#[trigger] self.owners_memos[i]) matches Some(
                m,
            ) ==> m.wf())
    }

    /// The engine's body for this body: each record and each memo that is
    /// present is converted where it stands, and the proofs and the tracer
    /// memos are kept. A body that has not one place for a memo for each
    /// output has the wrong length.
    pub open spec fn into_noah(self) -> Result<NoahBodyView, XfrError> {
        if self.owners_memos.len() != self.outputs.len() {
            Err(XfrError::LengthError)
        } else {
            Ok(
                NoahBodyView {
                    inputs: self.inputs.map_values(|r: RecordView| r.into_noah()),
                    outputs: self.outputs.map_values(|r: RecordView| r.into_noah()),
                    proofs: self.proofs,
                    asset_tracing_memos: self.asset_tracing_memos,
                    owners_memos: self.owners_memos.map_values(
                        |m: Option<OwnerMemoView>| memo_into_noah(m),
                    ),
                },
            )
        }
    }

    /// The body for an engine's body. One that has not one place for a memo
    /// for each output has the wrong length. Otherwise the inputs, then the
    /// outputs, then the memos are converted where they stand, the proofs and
    /// the tracer memos are kept, and the first item in that order that does
    /// not convert gives its error.
    pub open spec fn from_noah(value: NoahBodyView) -> Result<BodyView, XfrError> {
        if value.owners_memos.len() != value.outputs.len() {
            Err(XfrError::LengthError)
        } else {
            match try_map(value.inputs, record_from_noah()) {
                Err(e) => Err(e),
                Ok(inputs) => match try_map(value.outputs, record_from_noah()) {
                    Err(e) => Err(e),
                    Ok(outputs) => match try_map(value.owners_memos, optional_memo_from_noah()) {
                        Err(e) => Err(e),
                        Ok(owners_memos) => Ok(
                            BodyView {
                                inputs,
                                outputs,
                                proofs: value.proofs,
                                asset_tracing_memos: value.asset_tracing_memos,
                                owners_memos,
                            },
                        ),
                    },
                },
            }
        }
    }
}

/// A confidential transfer body.
#[derive(Debug, PartialEq, Eq)]
pub struct XfrBody {
    /// The list of input (blind) asset records.
    pub inputs: Vec<BlindAssetRecord>,
    /// The list of output (blind) asset records.
    pub outputs: Vec<BlindAssetRecord>,
    /// The list of proofs, which only the engine reads.
    pub proofs: XfrProofs,
    /// The memos for access tracers, carried as they are: how many lists
    /// there are, and to which record each belongs, is between the caller
    /// and the engine.
    pub asset_tracing_memos: Vec<Vec<TracerMemo>>,
    /// The memos for the recipients, one place for each output.
    pub owners_memos: Vec<Option<OwnerMemo>>,
}

impl View for XfrBody {
    type V = BodyView;

    open spec fn view(&self) -> BodyView {
        BodyView {
            inputs: records_view(self.inputs@),
            outputs: records_view(self.outputs@),
            proofs: self.proofs,
            asset_tracing_memos: tracer_memos_view(self.asset_tracing_memos@),
            owners_memos: memos_view(self.owners_memos@),
        }
    }
}

impl Clone for XfrBody {
    fn clone(&self) -> (copy: Self)
        ensures
            copy@ == self@,
    {
        let inputs = self.inputs.clone();
        let outputs = self.outputs.clone();
        let owners_memos = self.owners_memos.clone();
        let asset_tracing_memos = engine::clone_tracer_memos(&self.asset_tracing_memos);
        assert(records_view(inputs@) =~= records_view(self.inputs@));
        assert(records_view(outputs@) =~= records_view(self.outputs@));
        assert(memos_view(owners_memos@) =~= memos_view(self.owners_memos@));
        assert(tracer_memos_view(asset_tracing_memos@) =~= tracer_memos_view(
            self.asset_tracing_memos@,
        ));
        XfrBody {
            inputs,
            outputs,
            proofs: engine::clone_proofs(&self.proofs),
            asset_tracing_memos,
            owners_memos,
        }
    }
}

/// The engine's transfer body, as the plain values that it holds and the
/// engine's own proofs and tracer memos.
#[derive(Debug, PartialEq, Eq)]
pub struct NoahXfrBody {
    /// The list of input records.
    pub inputs: Vec<NoahBlindAssetRecord>,
    /// The list of output records.
    pub outputs: Vec<NoahBlindAssetRecord>,
    /// The list of proofs.
    pub proofs: XfrProofs,
    /// The memos for access tracers.
    pub asset_tracing_memos: Vec<Vec<TracerMemo>>,
    /// The memos for the recipients.
    pub owners_memos: Vec<Option<NoahOwnerMemo>>,
}

impl Clone for NoahXfrBody {
    fn clone(&self) -> (copy: Self)
        ensures
            copy@ == self@,
    {
        let inputs = self.inputs.clone();
        let outputs = self.outputs.clone();
        let owners_memos = self.owners_memos.clone();
        let asset_tracing_memos = engine::clone_tracer_memos(&self.asset_tracing_memos);
        assert(noah_records_view(inputs@) =~= noah_records_view(self.inputs@));
        assert(noah_records_view(outputs@) =~= noah_records_view(self.outputs@));
        assert(noah_memos_view(owners_memos@) =~= noah_memos_view(self.owners_memos@));
        assert(tracer_memos_view(asset_tracing_memos@) =~= tracer_memos_view(
            self.asset_tracing_memos@,
        ));
        NoahXfrBody {
            inputs,
            outputs,
            proofs: engine::clone_proofs(&self.proofs),
            asset_tracing_memos,
            owners_memos,
        }
    }
}

impl View for NoahXfrBody {
    type V = NoahBodyView;

    open spec fn view(&self) -> NoahBodyView {
        NoahBodyView {
            inputs: noah_records_view(self.inputs@),
            outputs: noah_records_view(self.outputs@),
            proofs: self.proofs,
            asset_tracing_memos: tracer_memos_view(self.asset_tracing_memos@),
            owners_memos: noah_memos_view(self.owners_memos@),
        }
    }
}

/// The engine's records for a list of records, in order. Never fails.
pub fn records_into_noah(records: &Vec<BlindAssetRecord>) -> (r: Result<
    Vec<NoahBlindAssetRecord>,
    XfrError,
>)
    ensures
        r is Ok,
        noah_records_view(r->Ok_0@) == records_view(records@).map_values(
            |r: RecordView| r.into_noah(),
        ),
        forall|i: int| 0 <= i < records@.len() ==> (#[trigger] records_view(records@)[i]).wf(),
{
    let mut out: Vec<NoahBlindAssetRecord> = Vec::new();
    let mut i: usize = 0;
    while i < records.len()
        invariant
            i <= records@.len(),
            out@.len() == i,
            forall|k: int| 0 <= k < i ==> (#[trigger] out@[k])@ == records@[k]@.into_noah(),
            forall|k: int| 0 <= k < i ==> (#[trigger] records@[k])@.wf(),
        decreases records@.len() - i,
    {
        match records[i].into_noah() {
            Ok(value) => {
                out.push(value);
            },
            Err(e) => {
                return Err(e);
            },
        }
        i = i + 1;
    }
    assert(noah_records_view(out@) =~= records_view(records@).map_values(
        |r: RecordView| r.into_noah(),
    ));
    Ok(out)
}

/// The records for a list of records of the engine, in order. Fails with the
/// error of the first record that does not convert.
pub fn records_from_noah(values: &Vec<NoahBlindAssetRecord>) -> (r: Result<
    Vec<BlindAssetRecord>,
    XfrError,
>)
    ensures
        match r {
            Ok(records) => try_map(noah_records_view(values@), record_from_noah()) == Ok::<
                _,
                XfrError,
            >(records_view(records@)) && (forall|i: int|
                0 <= i < records@.len() ==> (#[trigger] records_view(records@)[i]).wf()),
            Err(e) => try_map(noah_records_view(values@), record_from_noah()) == Err::<
                Seq<RecordView>,
                _,
            >(e),
        },
{
    let ghost source = noah_records_view(values@);
    let mut out: Vec<BlindAssetRecord> = Vec::new();
    let mut i: usize = 0;
    assert(source.take(0) =~= Seq::<NoahRecordView>::empty());
    assert(records_view(out@) =~= Seq::<RecordView>::empty());
    while i < values.len()
        invariant
            i <= values@.len(),
            source == noah_records_view(values@),
            out@.len() == i,
            try_map(source.take(i as int), record_from_noah()) == Ok::<_, XfrError>(
                records_view(out@),
            ),
            forall|k: int| 0 <= k < i ==> (#[trigger] out@[k])@.wf(),
        decreases values@.len() - i,
    {
        proof {
            lemma_try_map_step(source, record_from_noah(), i as int);
        }
        match BlindAssetRecord::from_noah(&values[i]) {
            Ok(record) => {
                let ghost before = out@;
                out.push(record);
                assert(records_view(out@) =~= records_view(before).push(record@));
            },
            Err(e) => {
                proof {
                    lemma_try_map_prefix_error(source, record_from_noah(), i + 1);
                }
                return Err(e);
            },
        }
        i = i + 1;
    }
    assert(source.take(i as int) =~= source);
    Ok(out)
}

/// The engine's memos for a list of optional owner memos, each where it
/// stands.
pub fn memos_into_noah(memos: &Vec<Option<OwnerMemo>>) -> (out: Vec<Option<NoahOwnerMemo>>)
    ensures
        noah_memos_view(out@) == memos_view(memos@).map_values(
            |m: Option<OwnerMemoView>| memo_into_noah(m),
        ),
        forall|i: int|
            0 <= i < memos@.len() ==> ((#[trigger] memos_view(memos@)[i]) matches Some(m)
                ==> m.wf()),
{
    let mut out: Vec<Option<NoahOwnerMemo>> = Vec::new();
    let mut i: usize = 0;
    while i < memos.len()
        invariant
            i <= memos@.len(),
            out@.len() == i,
            forall|k: int|
                0 <= k < i ==> noah_memo_view(#[trigger] out@[k]) == memo_into_noah(
                    memo_view(memos@[k]),
                ),
            forall|k: int|
                0 <= k < i ==> (memo_view(#[trigger] memos@[k]) matches Some(m) ==> m.wf()),
        decreases memos@.len() - i,
    {
        let converted = match &memos[i] {
            Some(memo) => Some(memo.into_noah()),
            None => None,
        };
        out.push(converted);
        i = i + 1;
    }
    assert(noah_memos_view(out@) =~= memos_view(memos@).map_values(
        |m: Option<OwnerMemoView>| memo_into_noah(m),
    ));
    out
}

/// The owner memos for a list of optional memos of the engine, each where it
/// stands. Fails with the error of the first memo that does not convert.
pub fn memos_from_noah(values: &Vec<Option<NoahOwnerMemo>>) -> (r: Result<
    Vec<Option<OwnerMemo>>,
    XfrError,
>)
    ensures
        match r {
            Ok(memos) => try_map(noah_memos_view(values@), optional_memo_from_noah()) == Ok::<
                _,
                XfrError,
            >(memos_view(memos@)),
            Err(e) => try_map(noah_memos_view(values@), optional_memo_from_noah()) == Err::<
                Seq<Option<OwnerMemoView>>,
                _,
            >(e),
        },
{
    let ghost source = noah_memos_view(values@);
    let mut out: Vec<Option<OwnerMemo>> = Vec::new();
    let mut i: usize = 0;
    assert(source.take(0) =~= Seq::<Option<NoahOwnerMemoView>>::empty());
    assert(memos_view(out@) =~= Seq::<Option<OwnerMemoView>>::empty());
    while i < values.len()
        invariant
            i <= values@.len(),
            source == noah_memos_view(values@),
            out@.len() == i,
            try_map(source.take(i as int), optional_memo_from_noah()) == Ok::<_, XfrError>(
                memos_view(out@),
            ),
        decreases values@.len() - i,
    {
        proof {
            lemma_try_map_step(source, optional_memo_from_noah(), i as int);
        }
        let converted = match &values[i] {
            Some(value) => match OwnerMemo::from_noah(value) {
                Ok(memo) => Some(memo),
                Err(e) => {
                    proof {
                        lemma_try_map_prefix_error(source, optional_memo_from_noah(), i + 1);
                    }
                    return Err(e);
                },
            },
            None => None,
        };
        let ghost before = out@;
        out.push(converted);
        assert(memos_view(out@) =~= memos_view(before).push(memo_view(converted)));
        i = i + 1;
    }
    assert(source.take(i as int) =~= source);
    Ok(out)
}

impl XfrBody {
    /// Whether there is one place for a memo for each output, and a memo is
    /// present exactly where the output has something confidential. A check
    /// for callers: the conversions ask only for the places.
    pub fn memos_follow_outputs(&self) -> (b: bool)
        ensures
            b == self@.memos_follow_outputs(),
    {
        if self.owners_memos.len() != self.outputs.len() {
            return false;
        }
        let mut i: usize = 0;
        while i < self.outputs.len()
            invariant
                i <= self.outputs@.len(),
                self.owners_memos@.len() == self.outputs@.len(),
                forall|k: int|
                    0 <= k < i ==> ((#[trigger] self@.owners_memos[k]) is Some
                        <==> !self@.outputs[k].is_public()),
            decreases self.outputs@.len() - i,
        {
            let present = self.owners_memos[i].is_some();
            let public = self.outputs[i].is_public();
            assert(self@.owners_memos[i as int] == memo_view(self.owners_memos@[i as int]));
            assert(self@.outputs[i as int] == self.outputs@[i as int]@);
            if present == public {
                return false;
            }
            i = i + 1;
        }
        true
    }

    /// The engine's body for this body. Fails with `LengthError` where there
    /// is not one place for a memo for each output, and on nothing else.
    pub fn into_noah(&self) -> (r: Result<NoahXfrBody, XfrError>)
        ensures
            match r {
                Ok(value) => self@.into_noah() == Ok::<_, XfrError>(value@),
                Err(e) => self@.into_noah() == Err::<NoahBodyView, _>(e),
            },
            r is Ok <==> self@.owners_memos.len() == self@.outputs.len(),
            r is Ok ==> self@.wf(),
            r is Ok ==> r->Ok_0@.inputs.len() == self@.inputs.len() && r->Ok_0@.outputs.len()
                == self@.outputs.len() && r->Ok_0@.owners_memos.len()
                == self@.owners_memos.len(),
    {
        if self.owners_memos.len() != self.outputs.len() {
            return Err(XfrError::LengthError);
        }
        let inputs = match records_into_noah(&self.inputs) {
            Ok(records) => records,
            Err(e) => {
                return Err(e);
            },
        };
        let outputs = match records_into_noah(&self.outputs) {
            Ok(records) => records,
            Err(e) => {
                return Err(e);
            },
        };
        let owners_memos = memos_into_noah(&self.owners_memos);
        let asset_tracing_memos = engine::clone_tracer_memos(&self.asset_tracing_memos);
        assert(tracer_memos_view(asset_tracing_memos@) =~= tracer_memos_view(
            self.asset_tracing_memos@,
        ));
        Ok(
            NoahXfrBody {
                inputs,
                outputs,
                proofs: engine::clone_proofs(&self.proofs),
                asset_tracing_memos,
                owners_memos,
            },
        )
    }

    /// The body for an engine's body. Fails with `LengthError` where there
    /// is not one place for a memo for each output, and otherwise with the
    /// error of the first input, output or memo, in that order, that does
    /// not convert: `KeyFormatError` for a record, `FormatError` for a memo.
    pub fn from_noah(value: &NoahXfrBody) -> (r: Result<XfrBody, XfrError>)
        ensures
            match r {
                Ok(body) => BodyView::from_noah(value@) == Ok::<_, XfrError>(body@) && body@.wf(),
                Err(e) => BodyView::from_noah(value@) == Err::<BodyView, _>(e),
            },
            r is Ok ==> r->Ok_0@.owners_memos.len() == r->Ok_0@.outputs.len()
                && r->Ok_0@.inputs.len() == value@.inputs.len() && r->Ok_0@.outputs.len()
                == value@.outputs.len(),
            value@.owners_memos.len() != value@.outputs.len() ==> r is Err && r->Err_0
                == XfrError::LengthError,
    {
        if value.owners_memos.len() != value.outputs.len() {
            return Err(XfrError::LengthError);
        }
        let inputs = match records_from_noah(&value.inputs) {
            Ok(records) => records,
            Err(e) => {
                return Err(e);
            },
        };
        let outputs = match records_from_noah(&value.outputs) {
            Ok(records) => records,
            Err(e) => {
                return Err(e);
            },
        };
        let owners_memos = match memos_from_noah(&value.owners_memos) {
            Ok(memos) => memos,
            Err(e) => {
                return Err(e);
            },
        };
        proof {
            lemma_try_map_ok(value@.inputs, record_from_noah());
            lemma_try_map_ok(value@.outputs, record_from_noah());
            lemma_try_map_ok(value@.owners_memos, optional_memo_from_noah());
        }
        let asset_tracing_memos = engine::clone_tracer_memos(&value.asset_tracing_memos);
        assert(tracer_memos_view(asset_tracing_memos@) =~= tracer_memos_view(
            value.asset_tracing_memos@,
        ));
        let body = XfrBody {
            inputs,
            outputs,
            proofs: engine::clone_proofs(&value.proofs),
            asset_tracing_memos,
            owners_memos,
        };
        proof {
            assert forall|i: int| 0 <= i < body@.owners_memos.len() implies ((
            #[trigger] body@.owners_memos[i]) matches Some(m) ==> m.wf()) by {
                assert(optional_memo_from_noah()(value@.owners_memos[i]) == Ok::<_, XfrError>(
                    body@.owners_memos[i],
                ));
            }
        }
        Ok(body)
    }
}

/// A body that converts from the engine's has one place for a memo for each
/// output and as many inputs and outputs as the engine's body; and an
/// engine's body that has not one place for a memo for each output does not
/// convert.
pub proof fn lemma_body_from_noah_lengths(value: NoahBodyView)
    ensures
        BodyView::from_noah(value) is Ok ==> {
            let body = BodyView::from_noah(value)->Ok_0;
            &&& body.owners_memos.len() == body.outputs.len()
            &&& body.inputs.len() == value.inputs.len()
            &&& body.outputs.len() == value.outputs.len()
            &&& body.owners_memos.len() == value.owners_memos.len()
        },
        value.owners_memos.len() != value.outputs.len() ==> BodyView::from_noah(value) == Err::<
            BodyView,
            _,
        >(XfrError::LengthError),
{
    lemma_try_map_ok(value.inputs, record_from_noah());
    lemma_try_map_ok(value.outputs, record_from_noah());
    lemma_try_map_ok(value.owners_memos, optional_memo_from_noah());
}

/// Converting well-formed records to the engine's records and back gives
/// the records again, in their order.
pub proof fn lemma_records_round_trip(records: Seq<RecordView>)
    requires
        forall|i: int| 0 <= i < records.len() ==> (#[trigger] records[i]).wf(),
    ensures
        try_map(records.map_values(|r: RecordView| r.into_noah()), record_from_noah()) == Ok::<
            _,
            XfrError,
        >(records),
{
    let values = records.map_values(|r: RecordView| r.into_noah());
    assert forall|i: int| 0 <= i < values.len() implies (#[trigger] record_from_noah()(
        values[i],
    )) == Ok::<_, XfrError>(records[i]) by {
        lemma_record_round_trip(records[i]);
    }
    lemma_try_map_ok(values, record_from_noah());
    assert(try_map(values, record_from_noah())->Ok_0 =~= records);
}

/// Converting optional well-formed memos to the engine's memos and back
/// gives the memos again, each where it stood.
pub proof fn lemma_memos_round_trip(memos: Seq<Option<OwnerMemoView>>)
    requires
        forall|i: int| 0 <= i < memos.len() ==> ((#[trigger] memos[i]) matches Some(m) ==> m.wf()),
    ensures
        try_map(
            memos.map_values(|m: Option<OwnerMemoView>| memo_into_noah(m)),
            optional_memo_from_noah(),
        ) == Ok::<_, XfrError>(memos),
{
    let values = memos.map_values(|m: Option<OwnerMemoView>| memo_into_noah(m));
    assert forall|i: int| 0 <= i < values.len() implies (#[trigger] optional_memo_from_noah()(
        values[i],
    )) == Ok::<_, XfrError>(memos[i]) by {
        if let Some(m) = memos[i] {
            lemma_owner_memo_round_trip(m);
        }
    }
    lemma_try_map_ok(values, optional_memo_from_noah());
    assert(try_map(values, optional_memo_from_noah())->Ok_0 =~= memos);
}

/// Converting a well-formed body to the engine's body and back gives the
/// body again: the same records and memos at the same places, and the same
/// proofs and tracer memos.
pub proof fn lemma_body_round_trip(body: BodyView)
    requires
        body.wf(),
    ensures
        body.into_noah() is Ok,
        BodyView::from_noah(body.into_noah()->Ok_0) == Ok::<_, XfrError>(body),
{
    lemma_records_round_trip(body.inputs);
    lemma_records_round_trip(body.outputs);
    lemma_memos_round_trip(body.owners_memos);
}

} // verus!
