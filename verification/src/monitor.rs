use vstd::prelude::*;
use vstd::string::StringExecFns;
use crate::address::{same_bytes, AccountAddress};
use crate::units::{units_text, RawValue};

verus! {

/// Where the monitor stands.
#[derive(Clone, Copy, Debug, PartialEq, Eq, Structural)]
pub enum MonitorState {
    Connecting,
    Subscribed,
    Receiving,
    NotifyDispatch,
    Closed,
}

/// Why the monitor stopped.
#[derive(Clone, Copy, Debug, PartialEq, Eq, Structural)]
pub enum StopReason {
    StreamEnded,
    TransportFailure,
    NotificationFailure,
}

/// The payload of a transfer event.
#[derive(Clone, Copy, Debug)]
pub struct TransferLog {
    pub from: AccountAddress,
    pub to: AccountAddress,
    pub value: RawValue,
}

/// One log of the subscription: its first topic, if it has one, and its
/// payload read as a transfer, if it can be read so.
#[derive(Clone, Copy, Debug)]
pub struct LogRecord {
    pub topic0: Option<[u8; 32]>,
    pub transfer: Option<TransferLog>,
}

/// What happened outside since the last step.
#[derive(Clone, Copy, Debug)]
pub enum MonitorEvent {
    SubscriptionOpened,
    Log(LogRecord),
    Notified,
    NotifyFailed,
    StreamEnded,
    TransportFailed,
}

/// What to do outside before the next step.
#[derive(Debug, PartialEq, Eq)]
pub enum MonitorAction {
    /// Say which endpoint is listened on.
    Announce,
    /// Nothing; wait for the next event.
    Continue,
    /// Say that a transfer log could not be read, and wait for the next event.
    ReportDecodeError,
    /// Send one notification for a transfer of `amount` from the wallet to the bank.
    Notify { title: String, amount: String },
    /// Leave the loop.
    Stop(StopReason),
}

/// The mathematical value of an action.
pub enum ActionView {
    Announce,
    Continue,
    ReportDecodeError,
    Notify { title: Seq<char>, amount: Seq<char> },
    Stop(StopReason),
}

impl View for MonitorAction {
    type V = ActionView;

    open spec fn view(&self) -> ActionView {
        match self {
            MonitorAction::Announce => ActionView::Announce,
            MonitorAction::Continue => ActionView::Continue,
            MonitorAction::ReportDecodeError => ActionView::ReportDecodeError,
            MonitorAction::Notify { title, amount } => ActionView::Notify {
                title: title@,
                amount: amount@,
            },
            MonitorAction::Stop(reason) => ActionView::Stop(*reason),
        }
    }
}

/// The first topic of a log of the event `Transfer(address,address,uint256)`.
pub open spec fn transfer_signature() -> Seq<u8> {
    seq![
        0xddu8, 0xf2, 0x52, 0xad, 0x1b, 0xe2, 0xc8, 0x9b, 0x69, 0xc2, 0xb0, 0x68, 0xfc, 0x37,
        0x8d, 0xaa, 0x95, 0x2b, 0xa7, 0xf1, 0x63, 0xc4, 0xa1, 0x16, 0x28, 0xf5, 0x5a, 0x4d, 0xf5,
        0x23, 0xb3, 0xef,
    ]
}

/// Whether a log is one of the transfer event.
pub open spec fn is_transfer(record: LogRecord) -> bool {
    match record.topic0 {
        Some(topic) => topic@ == transfer_signature(),
        None => false,
    }
}

/// What one log asks for. A log of another event is passed over. A transfer
/// log that cannot be read, or whose value has no decimal text in the token's
/// unit of 18 decimal places, is reported and passed over. A transfer from the wallet to the bank is notified; any other
/// transfer is passed over.
pub open spec fn on_log(record: LogRecord, wallet: Seq<u8>, bank: Seq<u8>) -> (
    MonitorState,
    ActionView,
) {
    if !is_transfer(record) {
        (MonitorState::Receiving, ActionView::Continue)
    } else {
        match record.transfer {
            None => (MonitorState::Receiving, ActionView::ReportDecodeError),
            Some(transfer) => match units_text(transfer.value.limbs@, "18"@) {
                None => (MonitorState::Receiving, ActionView::ReportDecodeError),
                Some(amount) => if transfer.from@ == wallet && transfer.to@ == bank {
                    (
                        MonitorState::NotifyDispatch,
                        ActionView::Notify { title: "GnosisPay"@, amount: amount },
                    )
                } else {
                    (MonitorState::Receiving, ActionView::Continue)
                },
            },
        }
    }
}

/// The monitor's transitions. The end of the stream and a transport failure
/// close it from any state. A closed monitor stays closed. An event that does
/// not belong to the state is passed over.
pub open spec fn next(state: MonitorState, event: MonitorEvent, wallet: Seq<u8>, bank: Seq<u8>)
    -> (MonitorState, ActionView) {
    match event {
        MonitorEvent::StreamEnded => (MonitorState::Closed, ActionView::Stop(StopReason::StreamEnded)),
        MonitorEvent::TransportFailed => (
            MonitorState::Closed,
            ActionView::Stop(StopReason::TransportFailure),
        ),
        MonitorEvent::SubscriptionOpened => if state == MonitorState::Connecting {
            (MonitorState::Subscribed, ActionView::Announce)
        } else {
            (state, ActionView::Continue)
        },
        MonitorEvent::Log(record) => if state == MonitorState::Subscribed || state
            == MonitorState::Receiving {
            on_log(record, wallet, bank)
        } else {
            (state, ActionView::Continue)
        },
        MonitorEvent::Notified => if state == MonitorState::NotifyDispatch {
            (MonitorState::Receiving, ActionView::Continue)
        } else {
            (state, ActionView::Continue)
        },
        MonitorEvent::NotifyFailed => if state == MonitorState::NotifyDispatch {
            (MonitorState::Closed, ActionView::Stop(StopReason::NotificationFailure))
        } else {
            (state, ActionView::Continue)
        },
    }
}

/// Whether a first topic is that of the transfer event.
pub fn matches_transfer(topic: &[u8; 32]) -> (r: bool)
    ensures
        r == (topic@ == transfer_signature()),
{
    let signature: [u8; 32] = [
        0xdd, 0xf2, 0x52, 0xad, 0x1b, 0xe2, 0xc8, 0x9b, 0x69, 0xc2, 0xb0, 0x68, 0xfc, 0x37, 0x8d,
        0xaa, 0x95, 0x2b, 0xa7, 0xf1, 0x63, 0xc4, 0xa1, 0x16, 0x28, 0xf5, 0x5a, 0x4d, 0xf5, 0x23,
        0xb3, 0xef,
    ];
    assert(signature@ =~= transfer_signature());
    same_bytes(topic, &signature)
}

/// Decides what one log asks for.
pub fn handle_log(record: &LogRecord, wallet: &AccountAddress, bank: &AccountAddress) -> (r: (
    MonitorState,
    MonitorAction,
))
    ensures
        r.0 == on_log(*record, wallet@, bank@).0,
        r.1@ == on_log(*record, wallet@, bank@).1,
{
    let is_transfer_log = match &record.topic0 {
        Some(topic) => matches_transfer(topic),
        None => false,
    };
    if !is_transfer_log {
        return (MonitorState::Receiving, MonitorAction::Continue);
    }
    let transfer = match &record.transfer {
        Some(transfer) => transfer,
        None => { return (MonitorState::Receiving, MonitorAction::ReportDecodeError); },
    };
    let amount = match transfer.value.to_units("18") {
        Some(text) => text,
        None => { return (MonitorState::Receiving, MonitorAction::ReportDecodeError); },
    };
    if transfer.from.same(wallet) && transfer.to.same(bank) {
        (
            MonitorState::NotifyDispatch,
            MonitorAction::Notify { title: "GnosisPay".to_owned(), amount },
        )
    } else {
        (MonitorState::Receiving, MonitorAction::Continue)
    }
}

/// One step of the monitor: from the state and what happened outside to the
/// next state and what to do outside.
pub fn step(
    state: MonitorState,
    event: &MonitorEvent,
    wallet: &AccountAddress,
    bank: &AccountAddress,
) -> (r: (MonitorState, MonitorAction))
    ensures
        r.0 == next(state, *event, wallet@, bank@).0,
        r.1@ == next(state, *event, wallet@, bank@).1,
{
    match event {
        MonitorEvent::StreamEnded => (
            MonitorState::Closed,
            MonitorAction::Stop(StopReason::StreamEnded),
        ),
        MonitorEvent::TransportFailed => (
            MonitorState::Closed,
            MonitorAction::Stop(StopReason::TransportFailure),
        ),
        MonitorEvent::SubscriptionOpened => match state {
            MonitorState::Connecting => (MonitorState::Subscribed, MonitorAction::Announce),
            _ => (state, MonitorAction::Continue),
        },
        MonitorEvent::Log(record) => match state {
            MonitorState::Subscribed => handle_log(record, wallet, bank),
            MonitorState::Receiving => handle_log(record, wallet, bank),
            _ => (state, MonitorAction::Continue),
        },
        MonitorEvent::Notified => match state {
            MonitorState::NotifyDispatch => (MonitorState::Receiving, MonitorAction::Continue),
            _ => (state, MonitorAction::Continue),
        },
        MonitorEvent::NotifyFailed => match state {
            MonitorState::NotifyDispatch => (
                MonitorState::Closed,
                MonitorAction::Stop(StopReason::NotificationFailure),
            ),
            _ => (state, MonitorAction::Continue),
        },
    }
}

/// The text of the notification for an amount already rendered with two decimals.
pub fn notification_message(rendered: &str) -> (r: String)
    ensures
        r@ == "Amount: "@ + rendered@,
{
    let mut message = "Amount: ".to_owned();
    message.append(rendered);
    message
}

/// A log of another event makes no notification and leaves the monitor receiving.
pub proof fn lemma_other_event_passed_over(record: LogRecord, wallet: Seq<u8>, bank: Seq<u8>)
    requires
        !is_transfer(record),
    ensures
        on_log(record, wallet, bank) == (MonitorState::Receiving, ActionView::Continue),
{
}

/// A notification is asked for only by a transfer log from the wallet to the bank.
pub proof fn lemma_notify_only_wallet_to_bank(record: LogRecord, wallet: Seq<u8>, bank: Seq<u8>)
    requires
        on_log(record, wallet, bank).1 is Notify,
    ensures
        is_transfer(record),
        record.transfer is Some,
        record.transfer->Some_0.from@ == wallet,
        record.transfer->Some_0.to@ == bank,
        on_log(record, wallet, bank).0 == MonitorState::NotifyDispatch,
{
}

} // verus!
