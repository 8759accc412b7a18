//! One call to the server from its request to its typed result: the request
//! that is submitted, the slot that the completion callback fills while the
//! caller waits, and the reading of that slot once the wait is over.
use vstd::prelude::*;
use super::super::errors::ControlError;
use super::super::operation::{wait, wait_outcome, OperationError, OperationState, Round};
use super::super::result_cell::ResultCell;
use super::request::Request;

verus! {

/// What the server hands to the callback of a listing or a lookup.
#[derive(Debug, PartialEq, Eq)]
pub enum ListResult<T> {
    /// One item.
    Item(T),
    /// The end of the list.
    End,
    /// The server could not answer.
    Error,
}

/// What a listing gives: the items in the order in which they were
/// reported, unless the server reported an error or the wait failed.
pub open spec fn list_answer<T>(
    items: Seq<T>,
    failed: bool,
    waited: Result<(), OperationError>,
) -> Result<Seq<T>, ControlError> {
    if waited is Err || failed {
        Err(ControlError::NoInfo)
    } else {
        Ok(items)
    }
}

/// The request looks one thing up by its index or by its name.
pub open spec fn is_lookup(request: Request) -> bool {
    ||| request is GetSinkInfoByIndex
    ||| request is GetSinkInfoByName
    ||| request is GetSourceInfoByIndex
    ||| request is GetSourceInfoByName
    ||| request is GetSinkInputInfo
    ||| request is GetSourceOutputInfo
    ||| request is GetCardInfoByIndex
    ||| request is GetCardInfoByName
}

/// Why a request that ran to its end gave nothing: what was looked up by
/// index or by name is not found, and any other information asked for is
/// not to be had.
pub open spec fn absent_error(request: Request) -> ControlError {
    if is_lookup(request) {
        ControlError::NotFound
    } else {
        ControlError::NoInfo
    }
}

/// What a request for one item gives: the item reported; `NoInfo` where
/// the server reported an error or the wait failed; where the server
/// reached the end without an item, `NotFound` for a lookup by index or by
/// name and `NoInfo` for any other request.
pub open spec fn item_answer<T>(
    request: Request,
    item: Option<T>,
    failed: bool,
    waited: Result<(), OperationError>,
) -> Result<T, ControlError> {
    if waited is Err || failed {
        Err(ControlError::NoInfo)
    } else {
        match item {
            Some(x) => Ok(x),
            None => Err(absent_error(request)),
        }
    }
}

/// What a change gives: `true` where the server reported success, and
/// `SetFailed` in every other case.
pub open spec fn flag_answer(flag: Option<bool>, waited: Result<(), OperationError>) -> Result<
    bool,
    ControlError,
> {
    if waited is Ok && flag == Some(true) {
        Ok(true)
    } else {
        Err(ControlError::SetFailed)
    }
}

/// What a listing has taken in: the items, and whether the end or an
/// error was reported.
pub struct ListTaken<T> {
    pub items: Seq<T>,
    pub ended: bool,
    pub failed: bool,
}

/// What a listing has taken in after one more report: an item is added
/// behind those before it, as long as neither the end nor an error was
/// reported.
pub open spec fn list_step<T>(taken: ListTaken<T>, report: ListResult<T>) -> ListTaken<T> {
    match report {
        ListResult::Item(x) => if taken.ended || taken.failed {
            taken
        } else {
            ListTaken { items: taken.items.push(x), ..taken }
        },
        ListResult::End => ListTaken { ended: true, ..taken },
        ListResult::Error => ListTaken { failed: true, ..taken },
    }
}

/// What a listing has taken in after the reports in turn.
pub open spec fn list_taken<T>(taken: ListTaken<T>, reports: Seq<ListResult<T>>) -> ListTaken<T>
    decreases reports.len(),
{
    if reports.len() == 0 {
        taken
    } else {
        list_taken(list_step(taken, reports[0]), reports.drop_first())
    }
}

/// What a lookup has taken in: the item reported last, and whether an
/// error was reported.
pub struct ItemTaken<T> {
    pub item: Option<T>,
    pub failed: bool,
}

/// What a lookup has taken in after one more report: an item replaces the
/// one before it.
pub open spec fn item_step<T>(taken: ItemTaken<T>, report: ListResult<T>) -> ItemTaken<T> {
    match report {
        ListResult::Item(x) => ItemTaken { item: Some(x), ..taken },
        ListResult::End => taken,
        ListResult::Error => ItemTaken { failed: true, ..taken },
    }
}

/// What a lookup has taken in after the reports in turn.
pub open spec fn item_taken<T>(taken: ItemTaken<T>, reports: Seq<ListResult<T>>) -> ItemTaken<T>
    decreases reports.len(),
{
    if reports.len() == 0 {
        taken
    } else {
        item_taken(item_step(taken, reports[0]), reports.drop_first())
    }
}

/// A report is an item.
pub open spec fn is_item<T>(report: ListResult<T>) -> bool {
    report is Item
}

/// A listing in flight.
#[derive(Debug)]
pub struct ListCall<T> {
    request: Request,
    cell: ResultCell<Vec<T>>,
    ended: bool,
    failed: bool,
}

impl<T> ListCall<T> {
    /// The request that this call submits.
    pub closed spec fn spec_request(&self) -> Request {
        self.request
    }

    /// The items reported so far.
    pub closed spec fn items(&self) -> Seq<T> {
        match self.cell@ {
            Some(items) => items@,
            None => Seq::<T>::empty(),
        }
    }

    /// The server has reported the end of the list.
    pub closed spec fn ended(&self) -> bool {
        self.ended
    }

    /// The server has reported an error.
    pub closed spec fn failed(&self) -> bool {
        self.failed
    }

    /// A call that is about to submit `request`.
    pub fn new(request: Request) -> (call: ListCall<T>)
        ensures
            call.spec_request() == request,
            call.items() == Seq::<T>::empty(),
            !call.ended(),
            !call.failed(),
    {
        ListCall { request, cell: ResultCell::new(), ended: false, failed: false }
    }

    /// The request that this call submits.
    pub fn request(&self) -> (request: &Request)
        ensures
            *request == self.spec_request(),
    {
        &self.request
    }

    /// The callback: takes in what the server reports. An item is added
    /// behind those before it, as long as neither the end nor an error was
    /// reported.
    pub fn on_result(&mut self, result: ListResult<T>)
        ensures
            final(self).spec_request() == old(self).spec_request(),
            final(self).items() == match result {
                ListResult::Item(x) => if old(self).ended() || old(self).failed() {
                    old(self).items()
                } else {
                    old(self).items().push(x)
                },
                _ => old(self).items(),
            },
            final(self).ended() == (old(self).ended() || result is End),
            final(self).failed() == (old(self).failed() || result is Error),
    {
        match result {
            ListResult::Item(x) => {
                if !self.ended && !self.failed {
                    let mut items: Vec<T> = match self.cell.take() {
                        Some(items) => items,
                        None => Vec::new(),
                    };
                    items.push(x);
                    self.cell.set(items);
                }
            },
            ListResult::End => {
                self.ended = true;
            },
            ListResult::Error => {
                self.failed = true;
            },
        }
    }

    /// What the call has taken in.
    pub open spec fn taken(&self) -> ListTaken<T> {
        ListTaken { items: self.items(), ended: self.ended(), failed: self.failed() }
    }

    /// Takes in the reports of the server in turn.
    pub fn feed(&mut self, reports: Vec<ListResult<T>>)
        ensures
            final(self).spec_request() == old(self).spec_request(),
            final(self).taken() == list_taken(old(self).taken(), reports@),
    {
        let ghost all = reports@;
        let mut reports = reports;
        while reports.len() > 0
            invariant
                self.spec_request() == old(self).spec_request(),
                list_taken(self.taken(), reports@) == list_taken(old(self).taken(), all),
            decreases reports.len(),
        {
            let ghost rest = reports@.drop_first();
            let report = reports.remove(0);
            assert(reports@ =~= rest);
            self.on_result(report);
        }
    }

    /// The whole call: the callback takes in the reports while the caller
    /// waits for the operation, which is in state `first`, over the rounds
    /// of the reactor; then the slot is read. `None` says that the rounds
    /// given leave the operation running, so that the call has not
    /// returned.
    pub fn complete(
        self,
        reports: Vec<ListResult<T>>,
        first: OperationState,
        rounds: &Vec<Round>,
    ) -> (r: Option<Result<Vec<T>, ControlError>>)
        ensures
            ({
                let taken = list_taken(self.taken(), reports@);
                match wait_outcome(first, rounds@, 0) {
                    None => r is None,
                    Some(waited) => match list_answer(taken.items, taken.failed, waited) {
                        Ok(items) => r matches Some(Ok(v)) && v@ == items,
                        Err(e) => r == Some(Err::<Vec<T>, ControlError>(e)),
                    },
                }
            }),
    {
        match wait(first, rounds) {
            Some(waited) => {
                let mut call = self;
                call.feed(reports);
                Some(call.finish(waited))
            },
            None => None,
        }
    }

    /// Reads the slot once the wait is over.
    pub fn finish(self, waited: Result<(), OperationError>) -> (r: Result<Vec<T>, ControlError>)
        ensures
            match r {
                Ok(v) => list_answer(self.items(), self.failed(), waited) == Ok::<
                    Seq<T>,
                    ControlError,
                >(v@),
                Err(e) => list_answer(self.items(), self.failed(), waited) == Err::<
                    Seq<T>,
                    ControlError,
                >(e),
            },
    {
        let failed = self.failed;
        let mut cell = self.cell;
        if waited.is_err() || failed {
            return Err(ControlError::NoInfo);
        }
        match cell.take() {
            Some(items) => Ok(items),
            None => Ok(Vec::new()),
        }
    }
}

/// Why a request that ran to its end gave nothing.
pub fn absent(request: &Request) -> (e: ControlError)
    ensures
        e == absent_error(*request),
{
    match request {
        Request::GetSinkInfoByIndex(_) => ControlError::NotFound,
        Request::GetSinkInfoByName(_) => ControlError::NotFound,
        Request::GetSourceInfoByIndex(_) => ControlError::NotFound,
        Request::GetSourceInfoByName(_) => ControlError::NotFound,
        Request::GetSinkInputInfo(_) => ControlError::NotFound,
        Request::GetSourceOutputInfo(_) => ControlError::NotFound,
        Request::GetCardInfoByIndex(_) => ControlError::NotFound,
        Request::GetCardInfoByName(_) => ControlError::NotFound,
        _ => ControlError::NoInfo,
    }
}

/// A request for one item in flight: a lookup by index or by name, or a
/// request for what the server says of itself.
#[derive(Debug)]
pub struct ItemCall<T> {
    request: Request,
    cell: ResultCell<T>,
    failed: bool,
}

impl<T> ItemCall<T> {
    /// The request that this call submits.
    pub closed spec fn spec_request(&self) -> Request {
        self.request
    }

    /// The item that the server reported last, if it reported any.
    pub closed spec fn item(&self) -> Option<T> {
        self.cell@
    }

    /// The server has reported an error.
    pub closed spec fn failed(&self) -> bool {
        self.failed
    }

    /// A call that is about to submit `request`.
    pub fn new(request: Request) -> (call: ItemCall<T>)
        ensures
            call.spec_request() == request,
            call.item() is None,
            !call.failed(),
    {
        ItemCall { request, cell: ResultCell::new(), failed: false }
    }

    /// The request that this call submits.
    pub fn request(&self) -> (request: &Request)
        ensures
            *request == self.spec_request(),
    {
        &self.request
    }

    /// The callback: takes in what the server reports. An item replaces
    /// the one before it.
    pub fn on_result(&mut self, result: ListResult<T>)
        ensures
            final(self).spec_request() == old(self).spec_request(),
            final(self).item() == match result {
                ListResult::Item(x) => Some(x),
                _ => old(self).item(),
            },
            final(self).failed() == (old(self).failed() || result is Error),
    {
        match result {
            ListResult::Item(x) => {
                self.cell.set(x);
            },
            ListResult::End => {},
            ListResult::Error => {
                self.failed = true;
            },
        }
    }

    /// What the call has taken in.
    pub open spec fn taken(&self) -> ItemTaken<T> {
        ItemTaken { item: self.item(), failed: self.failed() }
    }

    /// Takes in the reports of the server in turn.
    pub fn feed(&mut self, reports: Vec<ListResult<T>>)
        ensures
            final(self).spec_request() == old(self).spec_request(),
            final(self).taken() == item_taken(old(self).taken(), reports@),
    {
        let ghost all = reports@;
        let mut reports = reports;
        while reports.len() > 0
            invariant
                self.spec_request() == old(self).spec_request(),
                item_taken(self.taken(), reports@) == item_taken(old(self).taken(), all),
            decreases reports.len(),
        {
            let ghost rest = reports@.drop_first();
            let report = reports.remove(0);
            assert(reports@ =~= rest);
            self.on_result(report);
        }
    }

    /// The whole call: the callback takes in the reports while the caller
    /// waits for the operation, which is in state `first`, over the rounds
    /// of the reactor; then the slot is read. `None` says that the rounds
    /// given leave the operation running, so that the call has not
    /// returned.
    pub fn complete(
        self,
        reports: Vec<ListResult<T>>,
        first: OperationState,
        rounds: &Vec<Round>,
    ) -> (r: Option<Result<T, ControlError>>)
        ensures
            ({
                let taken = item_taken(self.taken(), reports@);
                r == match wait_outcome(first, rounds@, 0) {
                    None => None,
                    Some(waited) => Some(
                        item_answer(self.spec_request(), taken.item, taken.failed, waited),
                    ),
                }
            }),
    {
        match wait(first, rounds) {
            Some(waited) => {
                let mut call = self;
                call.feed(reports);
                Some(call.finish(waited))
            },
            None => None,
        }
    }

    /// Reads the slot once the wait is over.
    pub fn finish(self, waited: Result<(), OperationError>) -> (r: Result<T, ControlError>)
        ensures
            r == item_answer(self.spec_request(), self.item(), self.failed(), waited),
    {
        let failed = self.failed;
        let absent = absent(&self.request);
        let mut cell = self.cell;
        if waited.is_err() || failed {
            return Err(ControlError::NoInfo);
        }
        match cell.take() {
            Some(x) => Ok(x),
            None => Err(absent),
        }
    }
}

/// A change in flight.
#[derive(Debug)]
pub struct FlagCall {
    request: Request,
    cell: ResultCell<bool>,
}

impl FlagCall {
    /// The request that this call submits.
    pub closed spec fn spec_request(&self) -> Request {
        self.request
    }

    /// What the server reported of the change, if it has reported.
    pub closed spec fn flag(&self) -> Option<bool> {
        self.cell@
    }

    /// A call that is about to submit `request`.
    pub fn new(request: Request) -> (call: FlagCall)
        ensures
            call.spec_request() == request,
            call.flag() is None,
    {
        FlagCall { request, cell: ResultCell::new() }
    }

    /// The request that this call submits.
    pub fn request(&self) -> (request: &Request)
        ensures
            *request == self.spec_request(),
    {
        &self.request
    }

    /// The callback: takes in whether the server made the change.
    pub fn on_success(&mut self, success: bool)
        ensures
            final(self).spec_request() == old(self).spec_request(),
            final(self).flag() == Some(success),
    {
        self.cell.set(success);
    }

    /// The whole call: the callback takes in what the server reports of
    /// the change, if it reports, while the caller waits for the
    /// operation, which is in state `first`, over the rounds of the
    /// reactor; then the slot is read. `None` says that the rounds given
    /// leave the operation running, so that the call has not returned.
    pub fn complete(self, success: Option<bool>, first: OperationState, rounds: &Vec<Round>) -> (r:
        Option<Result<bool, ControlError>>)
        ensures
            ({
                let flag = match success {
                    Some(b) => Some(b),
                    None => self.flag(),
                };
                r == match wait_outcome(first, rounds@, 0) {
                    None => None,
                    Some(waited) => Some(flag_answer(flag, waited)),
                }
            }),
    {
        match wait(first, rounds) {
            Some(waited) => {
                let mut call = self;
                match success {
                    Some(b) => {
                        call.on_success(b);
                    },
                    None => {},
                }
                Some(call.finish(waited))
            },
            None => None,
        }
    }

    /// Reads the slot once the wait is over.
    pub fn finish(self, waited: Result<(), OperationError>) -> (r: Result<bool, ControlError>)
        ensures
            r == flag_answer(self.flag(), waited),
    {
        let mut cell = self.cell;
        let flag = cell.take();
        if waited.is_err() {
            return Err(ControlError::SetFailed);
        }
        match flag {
            Some(true) => Ok(true),
            _ => Err(ControlError::SetFailed),
        }
    }
}

/// Reports that hold no item leave a lookup without one.
pub proof fn lemma_no_item_taken<T>(taken: ItemTaken<T>, reports: Seq<ListResult<T>>)
    requires
        taken.item is None,
        forall|k: int| 0 <= k < reports.len() ==> !is_item(#[trigger] reports[k]),
    ensures
        item_taken(taken, reports).item is None,
    decreases reports.len(),
{
    if reports.len() > 0 {
        assert(!is_item(reports[0]));
        let rest = reports.drop_first();
        assert forall|k: int| 0 <= k < rest.len() implies !is_item(#[trigger] rest[k]) by {
            assert(rest[k] == reports[k + 1]);
        }
        lemma_no_item_taken(item_step(taken, reports[0]), rest);
    }
}

/// A lookup of something that the server does not hold never succeeds
/// with nothing: where the server reports no item, the answer is an
/// error, and where the operation was done and no error was reported, the
/// error is `NotFound`.
pub proof fn lemma_absent_item_is_not_found<T>(
    request: Request,
    reports: Seq<ListResult<T>>,
    waited: Result<(), OperationError>,
)
    requires
        is_lookup(request),
        forall|k: int| 0 <= k < reports.len() ==> !is_item(#[trigger] reports[k]),
    ensures
        ({
            let taken = item_taken(ItemTaken { item: None, failed: false }, reports);
            &&& item_answer(request, taken.item, taken.failed, waited) is Err
            &&& waited is Ok && !taken.failed ==> item_answer(
                request,
                taken.item,
                taken.failed,
                waited,
            ) == Err::<T, ControlError>(ControlError::NotFound)
        }),
{
    lemma_no_item_taken(ItemTaken { item: None, failed: false }, reports);
}

/// A request for what the server says of itself that ends without an
/// answer gives `NoInfo`, whatever else happened.
pub proof fn lemma_no_server_info<T>(
    reports: Seq<ListResult<T>>,
    waited: Result<(), OperationError>,
)
    requires
        forall|k: int| 0 <= k < reports.len() ==> !is_item(#[trigger] reports[k]),
    ensures
        ({
            let taken = item_taken(ItemTaken { item: None, failed: false }, reports);
            item_answer(Request::GetServerInfo, taken.item, taken.failed, waited) == Err::<
                T,
                ControlError,
            >(ControlError::NoInfo)
        }),
{
    lemma_no_item_taken(ItemTaken { item: None, failed: false }, reports);
}

} // verus!
