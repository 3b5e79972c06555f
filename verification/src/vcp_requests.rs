//! The D-Bus methods that read several VCP features or write one: like `GetVcp`,
//! each is a state machine whose steps name the next backend call or the reply.

use crate::backend::{failure_reply, reply_message, reply_status, BackendError, VcpReading};
use crate::service::{has_flag, DdcutilService, EDID_PREFIX_ALLOWED};
use vstd::prelude::*;
use vstd::slice::slice_to_vec;
use vstd::string::*;

verus! {

/// One value of a `GetMultipleVcp` reply: feature code, current value, maximum,
/// formatted value.
pub type VcpValue = (u8, u16, u16, String);

/// A `GetMultipleVcp` reply: the values read, error status, error message.
pub type MultiVcpReply = (Vec<VcpValue>, i32, String);

/// The plain value of one reply value.
pub open spec fn value_view(v: VcpValue) -> (u8, u16, u16, Seq<char>) {
    (v.0, v.1, v.2, v.3@)
}

/// The plain values of reply values, in order.
pub open spec fn values_view(s: Seq<VcpValue>) -> Seq<(u8, u16, u16, Seq<char>)> {
    s.map_values(|v: VcpValue| value_view(v))
}

/// A `GetMultipleVcp` request as plain values.
pub struct MultiVcpView {
    pub display_number: i32,
    pub edid_text: Seq<char>,
    pub allow_edid_prefix: bool,
    /// The requested feature codes, in request order.
    pub vcp_codes: Seq<u8>,
    /// The values read so far, one per requested code from the first on.
    pub values: Seq<(u8, u16, u16, Seq<char>)>,
}

/// The values read so far answer the first requested codes, in request order.
pub open spec fn reads_in_order(q: MultiVcpView) -> bool {
    &&& q.values.len() <= q.vcp_codes.len()
    &&& forall|i: int| 0 <= i < q.values.len() ==> #[trigger] q.values[i].0 == q.vcp_codes[i]
}

/// The request after the value `v` was read for its next code.
pub open spec fn read_one(q: MultiVcpView, v: VcpReading) -> MultiVcpView {
    MultiVcpView {
        values: q.values.push((q.vcp_codes[q.values.len() as int], v.current, v.max, v.formatted@)),
        ..q
    }
}

/// The request after the values `readings` were read, one after the other.
pub open spec fn read_all(q: MultiVcpView, readings: Seq<VcpReading>) -> MultiVcpView
    decreases readings.len(),
{
    if readings.len() == 0 {
        q
    } else {
        read_all(read_one(q, readings[0]), readings.drop_first())
    }
}

/// A `GetMultipleVcp` reply that reports the backend failure `e`.
pub open spec fn is_multi_failure(reply: MultiVcpReply, e: BackendError) -> bool {
    &&& reply.0@.len() == 0
    &&& reply.1 == reply_status(e)
    &&& reply.2@ == reply_message("get_multiple_vcp"@, e)
}

/// A `GetMultipleVcp` request in progress.
pub struct MultiVcpQuery {
    display_number: i32,
    edid_text: String,
    allow_edid_prefix: bool,
    vcp_codes: Vec<u8>,
    values: Vec<VcpValue>,
}

impl View for MultiVcpQuery {
    type V = MultiVcpView;

    closed spec fn view(&self) -> MultiVcpView {
        MultiVcpView {
            display_number: self.display_number,
            edid_text: self.edid_text@,
            allow_edid_prefix: self.allow_edid_prefix,
            vcp_codes: self.vcp_codes@,
            values: values_view(self.values@),
        }
    }
}

/// The next thing a `GetMultipleVcp` request needs.
pub enum MultiVcpStep {
    /// Ask the backend for the display (see `MultiVcpQuery::display_number`,
    /// `edid_text`, `allow_edid_prefix`), then call `after_find`.
    FindDisplay(MultiVcpQuery),
    /// Open the display that was found, then call `after_open`.
    OpenDisplay(MultiVcpQuery),
    /// Read feature `next_code()` through the open display, then call `after_read`.
    ReadVcp(MultiVcpQuery),
    /// The request is over: send this reply.
    Reply(MultiVcpReply),
}

fn multi_failure(e: &BackendError) -> (reply: MultiVcpReply)
    ensures
        is_multi_failure(reply, *e),
{
    let (status, text) = failure_reply("get_multiple_vcp", e);
    (Vec::new(), status, text)
}

impl MultiVcpQuery {
    #[verifier::type_invariant]
    closed spec fn read_in_order(self) -> bool {
        reads_in_order(self@)
    }

    /// The display number to look the display up by.
    pub fn display_number(&self) -> (n: i32)
        ensures
            n == self@.display_number,
    {
        self.display_number
    }

    /// The EDID text to look the display up by.
    pub fn edid_text(&self) -> (t: &str)
        ensures
            t@ == self@.edid_text,
    {
        self.edid_text.as_str()
    }

    /// Whether the EDID text may be a unique prefix of the display's EDID.
    pub fn allow_edid_prefix(&self) -> (allowed: bool)
        ensures
            allowed == self@.allow_edid_prefix,
    {
        self.allow_edid_prefix
    }

    /// The feature to read next: the first requested code not yet read.
    pub fn next_code(&self) -> (code: Option<u8>)
        ensures
            code == (if self@.values.len() < self@.vcp_codes.len() {
                Some(self@.vcp_codes[self@.values.len() as int])
            } else {
                None
            }),
    {
        if self.values.len() < self.vcp_codes.len() {
            Some(self.vcp_codes[self.values.len()])
        } else {
            None
        }
    }

    /// Reads the next code, or answers with all values once every code is read.
    fn next_step(self) -> (step: MultiVcpStep)
        ensures
            self@.values.len() < self@.vcp_codes.len() ==> step == MultiVcpStep::ReadVcp(self),
            self@.values.len() >= self@.vcp_codes.len() ==> (step matches MultiVcpStep::Reply(r)
                && values_view(r.0@) == self@.values && r.1 == 0 && r.2@.len() == 0),
    {
        if self.values.len() < self.vcp_codes.len() {
            MultiVcpStep::ReadVcp(self)
        } else {
            let MultiVcpQuery { values, .. } = self;
            MultiVcpStep::Reply((values, 0, String::new()))
        }
    }

    /// Continues after the backend's display lookup: a failure ends the request with
    /// an error reply, success goes on to open the display.
    pub fn after_find(self, result: Result<(), BackendError>) -> (step: MultiVcpStep)
        ensures
            reads_in_order(self@),
            match result {
                Ok(()) => step == MultiVcpStep::OpenDisplay(self),
                Err(e) => step matches MultiVcpStep::Reply(r) && is_multi_failure(r, e),
            },
    {
        proof {
            use_type_invariant(&self);
        }
        match result {
            Ok(()) => MultiVcpStep::OpenDisplay(self),
            Err(e) => MultiVcpStep::Reply(multi_failure(&e)),
        }
    }

    /// Continues after opening the display: a failure ends the request with an error
    /// reply; on success the first code is read, or, when no code was asked for, the
    /// request succeeds with no values.
    pub fn after_open(self, result: Result<(), BackendError>) -> (step: MultiVcpStep)
        ensures
            reads_in_order(self@),
            match result {
                Ok(()) => {
                    &&& self@.values.len() < self@.vcp_codes.len() ==> step
                        == MultiVcpStep::ReadVcp(self)
                    &&& self@.values.len() >= self@.vcp_codes.len() ==> (step matches MultiVcpStep::Reply(r)
                        && values_view(r.0@) == self@.values && r.1 == 0 && r.2@.len() == 0)
                },
                Err(e) => step matches MultiVcpStep::Reply(r) && is_multi_failure(r, e),
            },
    {
        proof {
            use_type_invariant(&self);
        }
        match result {
            Ok(()) => self.next_step(),
            Err(e) => MultiVcpStep::Reply(multi_failure(&e)),
        }
    }

    /// Takes the value read for the next code: it is added to the values, and the
    /// following code is read, or, when it was the last, the request succeeds with all
    /// values in request order.  A failed read ends the request with an error reply.
    pub fn after_read(self, result: Result<VcpReading, BackendError>) -> (step: MultiVcpStep)
        requires
            self@.values.len() < self@.vcp_codes.len(),
        ensures
            reads_in_order(self@),
            match result {
                Ok(v) => {
                    let next = read_one(self@, v);
                    &&& next.values.len() < self@.vcp_codes.len() ==> (step matches MultiVcpStep::ReadVcp(
                        q,
                    ) && q@ == next)
                    &&& next.values.len() == self@.vcp_codes.len() ==> (step matches MultiVcpStep::Reply(
                        r,
                    ) && values_view(r.0@) == next.values && r.1 == 0 && r.2@.len() == 0)
                },
                Err(e) => step matches MultiVcpStep::Reply(r) && is_multi_failure(r, e),
            },
    {
        proof {
            use_type_invariant(&self);
        }
        match result {
            Ok(v) => {
                let code = self.vcp_codes[self.values.len()];
                let MultiVcpQuery { display_number, edid_text, allow_edid_prefix, vcp_codes, mut values } =
                    self;
                let ghost before = values@;
                values.push((code, v.current, v.max, v.formatted));
                assert(values_view(values@) =~= values_view(before).push(value_view(values@.last())));
                let next = MultiVcpQuery { display_number, edid_text, allow_edid_prefix, vcp_codes, values };
                next.next_step()
            },
            Err(e) => MultiVcpStep::Reply(multi_failure(&e)),
        }
    }
}

/// A `SetVcp` or `SetVcpWithContext` request in progress.
pub struct VcpWrite {
    pub display_number: i32,
    pub edid_text: String,
    /// The EDID text may be a unique prefix of the display's EDID.
    pub allow_edid_prefix: bool,
    pub vcp_code: u8,
    pub new_value: u16,
    /// The client's context string; present for `SetVcpWithContext` only.  It changes
    /// neither the write nor the reply.
    pub client_context: Option<String>,
}

/// The next thing a VCP write needs.
pub enum WriteStep {
    /// Ask the backend for the display, then call `after_find`.
    FindDisplay(VcpWrite),
    /// Open the display that was found, then call `after_open`.
    OpenDisplay(VcpWrite),
    /// Write `new_value` to feature `vcp_code` through the open display, then call
    /// `after_write`.
    WriteVcp(VcpWrite),
    /// The request is over: send this reply.
    Reply((i32, String)),
}

/// A write reply that reports the backend failure `e`.  `SetVcp` and
/// `SetVcpWithContext` report their failures alike, under the name `set_vcp`.
pub open spec fn is_write_failure(reply: (i32, String), e: BackendError) -> bool {
    &&& reply.0 == reply_status(e)
    &&& reply.1@ == reply_message("set_vcp"@, e)
}

impl VcpWrite {
    fn failure(&self, e: &BackendError) -> (reply: (i32, String))
        ensures
            is_write_failure(reply, *e),
    {
        failure_reply("set_vcp", e)
    }

    /// Continues after the backend's display lookup: a failure ends the request with
    /// an error reply, success goes on to open the display.
    pub fn after_find(self, result: Result<(), BackendError>) -> (step: WriteStep)
        ensures
            match result {
                Ok(()) => step == WriteStep::OpenDisplay(self),
                Err(e) => step matches WriteStep::Reply(r) && is_write_failure(r, e),
            },
    {
        match result {
            Ok(()) => WriteStep::OpenDisplay(self),
            Err(e) => WriteStep::Reply(self.failure(&e)),
        }
    }

    /// Continues after opening the display: a failure ends the request with an error
    /// reply, success goes on to write the value.
    pub fn after_open(self, result: Result<(), BackendError>) -> (step: WriteStep)
        ensures
            match result {
                Ok(()) => step == WriteStep::WriteVcp(self),
                Err(e) => step matches WriteStep::Reply(r) && is_write_failure(r, e),
            },
    {
        match result {
            Ok(()) => WriteStep::WriteVcp(self),
            Err(e) => WriteStep::Reply(self.failure(&e)),
        }
    }

    /// Ends the request after the write: success only when the backend wrote the
    /// value, otherwise the failure.
    pub fn after_write(self, result: Result<(), BackendError>) -> (reply: (i32, String))
        ensures
            match result {
                Ok(()) => reply.0 == 0 && reply.1@.len() == 0,
                Err(e) => is_write_failure(reply, e),
            },
    {
        match result {
            Ok(()) => (0, String::new()),
            Err(e) => self.failure(&e),
        }
    }
}

impl DdcutilService {
    /// `GetMultipleVcp`: starts by looking up the display by number and EDID text (a
    /// prefix where the `EDID_PREFIX_ALLOWED` flag is set); the codes are then read
    /// one by one in request order.
    pub fn get_multiple_vcp(&self, display_number: i32, edid_txt: &str, vcp_codes: &[u8], flags: u32) -> (step:
        MultiVcpStep)
        ensures
            step matches MultiVcpStep::FindDisplay(q) && q@ == (MultiVcpView {
                display_number,
                edid_text: edid_txt@,
                allow_edid_prefix: has_flag(flags, EDID_PREFIX_ALLOWED),
                vcp_codes: vcp_codes@,
                values: Seq::empty(),
            }),
    {
        let q = MultiVcpQuery {
            display_number,
            edid_text: String::from_str(edid_txt),
            allow_edid_prefix: flags & EDID_PREFIX_ALLOWED != 0,
            vcp_codes: slice_to_vec(vcp_codes),
            values: Vec::new(),
        };
        assert(q@.values =~= Seq::empty());
        MultiVcpStep::FindDisplay(q)
    }

    /// `SetVcp`: starts by looking up the display; the value is then written through
    /// the opened display.  The service object itself does not change.
    pub fn set_vcp(&mut self, display_number: i32, edid_txt: &str, vcp_code: u8, vcp_new_value: u16, flags: u32) -> (step:
        WriteStep)
        ensures
            *final(self) == *old(self),
            step matches WriteStep::FindDisplay(w) && w.display_number == display_number
                && w.edid_text@ == edid_txt@ && w.allow_edid_prefix == has_flag(
                flags,
                EDID_PREFIX_ALLOWED,
            ) && w.vcp_code == vcp_code && w.new_value == vcp_new_value && w.client_context is None,
    {
        WriteStep::FindDisplay(
            VcpWrite {
                display_number,
                edid_text: String::from_str(edid_txt),
                allow_edid_prefix: flags & EDID_PREFIX_ALLOWED != 0,
                vcp_code,
                new_value: vcp_new_value,
                client_context: None,
            },
        )
    }

    /// `SetVcpWithContext`: as `SetVcp`, carrying the client's context string.
    pub fn set_vcp_with_context(
        &mut self,
        display_number: i32,
        edid_txt: &str,
        vcp_code: u8,
        vcp_new_value: u16,
        client_context: &str,
        flags: u32,
    ) -> (step: WriteStep)
        ensures
            *final(self) == *old(self),
            step matches WriteStep::FindDisplay(w) && w.display_number == display_number
                && w.edid_text@ == edid_txt@ && w.allow_edid_prefix == has_flag(
                flags,
                EDID_PREFIX_ALLOWED,
            ) && w.vcp_code == vcp_code && w.new_value == vcp_new_value && (w.client_context matches Some(
                c,
            ) && c@ == client_context@),
    {
        WriteStep::FindDisplay(
            VcpWrite {
                display_number,
                edid_text: String::from_str(edid_txt),
                allow_edid_prefix: flags & EDID_PREFIX_ALLOWED != 0,
                vcp_code,
                new_value: vcp_new_value,
                client_context: Some(String::from_str(client_context)),
            },
        )
    }
}

proof fn lemma_read_all(q: MultiVcpView, readings: Seq<VcpReading>)
    requires
        q.values.len() + readings.len() <= q.vcp_codes.len(),
    ensures
        read_all(q, readings).display_number == q.display_number,
        read_all(q, readings).edid_text == q.edid_text,
        read_all(q, readings).allow_edid_prefix == q.allow_edid_prefix,
        read_all(q, readings).vcp_codes == q.vcp_codes,
        read_all(q, readings).values == q.values + Seq::new(
            readings.len(),
            |i: int|
                (
                    q.vcp_codes[q.values.len() + i],
                    readings[i].current,
                    readings[i].max,
                    readings[i].formatted@,
                ),
        ),
    decreases readings.len(),
{
    if readings.len() > 0 {
        let q1 = read_one(q, readings[0]);
        let rest = readings.drop_first();
        lemma_read_all(q1, rest);
        let f = |i: int|
            (q.vcp_codes[q.values.len() + i], readings[i].current, readings[i].max, readings[i].formatted@);
        let g = |i: int|
            (q1.vcp_codes[q1.values.len() + i], rest[i].current, rest[i].max, rest[i].formatted@);
        assert(q1.values + Seq::new(rest.len(), g) =~= q.values + Seq::new(readings.len(), f));
    } else {
        assert(q.values + Seq::new(
            0,
            |i: int|
                (
                    q.vcp_codes[q.values.len() + i],
                    readings[i].current,
                    readings[i].max,
                    readings[i].formatted@,
                ),
        ) =~= q.values);
    }
}

/// Reading every requested code of a fresh `GetMultipleVcp` request, in turn, gives
/// one value per code, in request order: the code with the current value, maximum and
/// formatted value read for it.  (`after_read` moves a request from `q` to
/// `read_one(q, v)` and answers with its values once the last code is read.)
pub proof fn law_multiple_vcp_reads_every_code(q: MultiVcpView, readings: Seq<VcpReading>)
    requires
        q.values.len() == 0,
        readings.len() == q.vcp_codes.len(),
    ensures
        read_all(q, readings).values.len() == q.vcp_codes.len(),
        forall|i: int|
            0 <= i < q.vcp_codes.len() ==> #[trigger] read_all(q, readings).values[i] == (
                q.vcp_codes[i],
                readings[i].current,
                readings[i].max,
                readings[i].formatted@,
            ),
        reads_in_order(read_all(q, readings)),
{
    lemma_read_all(q, readings);
}

} // verus!
