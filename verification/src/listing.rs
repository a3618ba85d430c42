use vstd::prelude::*;

use crate::error::VaultError;
use crate::hd_path::{parse_hd_path, parsed_path, HDPath};
use crate::seeds::{seed_of, source_of, AddressSource, MnemonicSeed, Seed, SeedDescription};
use crate::wallet::Address;

verus! {

/// A requested HD path together with the address it leads to.
#[derive(Clone, Debug, PartialEq, Eq)]
pub struct HDPathAddress {
    pub address: Address,
    pub hd_path: String,
}

/// Where a listing stands with the source of its addresses.
#[derive(Clone, Copy, Debug, PartialEq, Eq, Structural)]
pub enum AdapterState {
    /// The source is not at hand: no device is known to be attached, or the
    /// mnemonic phrase was not looked at yet.
    Disconnected,
    /// The source was asked to open and has not answered.
    Probing,
    /// The source is at hand and no request is under way.
    Connected,
    /// One path was handed out and its address is awaited.
    Deriving,
}

/// What happened outside since the last step of a listing.
#[derive(Clone, Copy, Debug, PartialEq, Eq)]
pub enum ListingEvent {
    /// The caller wants the listing to go on.
    Start,
    /// The source opened: the device is there, or the phrase is a valid
    /// one.
    Opened,
    /// No device is present, or its transport cannot be claimed.
    Unavailable,
    /// The mnemonic phrase is not a valid phrase.
    SeedRejected,
    /// The address at the path that was handed out.
    Address(Address),
    /// No address could be had at the path that was handed out.
    Failed,
    /// The device was removed.
    Removed,
}

/// What the caller of a listing does next.
#[derive(Debug, PartialEq, Eq)]
pub enum ListingStep {
    /// Nothing: the event did not concern the listing as it stands.
    Wait,
    /// Open the source and report what came of it: for a device, open its
    /// transport and report `Opened` or `Unavailable`; for a mnemonic,
    /// check the phrase against its word list and report `Opened` or
    /// `SeedRejected`.
    Open,
    /// Get the address at this path from the source, in one round trip, and
    /// report it.
    Derive(HDPath),
    /// Hand this to whoever asked for the listing.
    Done(Result<Vec<HDPathAddress>, VaultError>),
}

/// A `ListingStep` as a mathematical value.
pub enum StepModel {
    Wait,
    Open,
    Derive(Seq<u32>),
    Done(Result<Seq<HDPathAddress>, VaultError>),
}

impl View for ListingStep {
    type V = StepModel;

    open spec fn view(&self) -> StepModel {
        match self {
            ListingStep::Wait => StepModel::Wait,
            ListingStep::Open => StepModel::Open,
            ListingStep::Derive(path) => StepModel::Derive(path@),
            ListingStep::Done(Ok(list)) => StepModel::Done(Ok(list@)),
            ListingStep::Done(Err(e)) => StepModel::Done(Err(*e)),
        }
    }
}

/// An `AddressListing` as a mathematical value: the paths that were asked
/// for and the addresses found so far, for the paths in front.
pub struct ListingModel {
    pub source: AddressSource,
    pub state: AdapterState,
    pub paths: Seq<String>,
    pub found: Seq<Address>,
}

/// One listing of addresses: from a list of HD paths to one address for
/// each, in the order asked, by one request to the source at a time.
///
/// The listing decides; its caller does the outside work. The caller feeds
/// `step` with what happened and does what `step` returns, starting with
/// `ListingEvent::Start`, until it is handed `ListingStep::Done`.
pub struct AddressListing {
    source: AddressSource,
    state: AdapterState,
    paths: Vec<String>,
    found: Vec<Address>,
}

/// The addresses found, each with the path it was asked for.
pub open spec fn paired(paths: Seq<String>, found: Seq<Address>) -> Seq<HDPathAddress> {
    Seq::new(found.len(), |i: int| HDPathAddress { address: found[i], hd_path: paths[i] })
}

/// The error when no address can be had at a path: the device has failed,
/// or no key can be derived at the path.
pub open spec fn failure_of(source: AddressSource) -> VaultError {
    match source {
        AddressSource::Ledger => VaultError::DeviceError,
        AddressSource::Mnemonic(_) => VaultError::InvalidPath,
    }
}

/// How a listing whose source is at hand goes on: with the next path, or
/// to its end. A malformed path ends it with `InvalidPath`, and nothing of
/// what was found is handed out.
pub open spec fn advanced(m: ListingModel) -> (ListingModel, StepModel) {
    if m.found.len() >= m.paths.len() {
        (
            ListingModel { state: AdapterState::Connected, ..m },
            StepModel::Done(Ok(paired(m.paths, m.found))),
        )
    } else {
        match parsed_path(m.paths[m.found.len() as int]@) {
            Some(values) => (
                ListingModel { state: AdapterState::Deriving, ..m },
                StepModel::Derive(values),
            ),
            None => (
                ListingModel { state: AdapterState::Connected, ..m },
                StepModel::Done(Err(VaultError::InvalidPath)),
            ),
        }
    }
}

/// The listing after an event, and what its caller does next.
pub open spec fn stepped(m: ListingModel, event: ListingEvent) -> (ListingModel, StepModel) {
    let ledger = m.source is Ledger;
    let connected = ListingModel { state: AdapterState::Connected, ..m };
    let disconnected = ListingModel { state: AdapterState::Disconnected, ..m };
    match (m.state, event) {
        (AdapterState::Disconnected, ListingEvent::Start) => (
            ListingModel { state: AdapterState::Probing, ..m },
            StepModel::Open,
        ),
        (AdapterState::Connected, ListingEvent::Start) => advanced(m),
        (AdapterState::Probing, ListingEvent::Opened) => advanced(connected),
        (AdapterState::Probing, ListingEvent::Unavailable) => if ledger {
            (disconnected, StepModel::Done(Ok(Seq::empty())))
        } else {
            (m, StepModel::Wait)
        },
        (AdapterState::Probing, ListingEvent::SeedRejected) => if ledger {
            (m, StepModel::Wait)
        } else {
            (disconnected, StepModel::Done(Err(VaultError::UnsupportedSeedType)))
        },
        (AdapterState::Probing, ListingEvent::Removed) => if ledger {
            (disconnected, StepModel::Done(Ok(Seq::empty())))
        } else {
            (m, StepModel::Wait)
        },
        (AdapterState::Deriving, ListingEvent::Address(address)) => advanced(
            ListingModel { found: m.found.push(address), ..connected },
        ),
        (AdapterState::Deriving, ListingEvent::Failed) => (
            connected,
            StepModel::Done(Err(failure_of(m.source))),
        ),
        (AdapterState::Deriving, ListingEvent::Removed) => if ledger {
            (disconnected, StepModel::Done(Err(VaultError::DeviceError)))
        } else {
            (m, StepModel::Wait)
        },
        (AdapterState::Connected, ListingEvent::Removed) => if ledger {
            (disconnected, StepModel::Wait)
        } else {
            (m, StepModel::Wait)
        },
        _ => (m, StepModel::Wait),
    }
}

/// What holds of every listing: an address is found for each path in
/// front, and a path is handed out only while one is left.
pub open spec fn listing_wf(m: ListingModel) -> bool {
    &&& m.found.len() <= m.paths.len()
    &&& m.state == AdapterState::Deriving ==> m.found.len() < m.paths.len()
}

impl AddressListing {
    /// This listing as a mathematical value.
    pub closed spec fn model(&self) -> ListingModel {
        ListingModel {
            source: self.source,
            state: self.state,
            paths: self.paths@,
            found: self.found@,
        }
    }

    /// Whether this listing is as every listing is.
    pub open spec fn wf(&self) -> bool {
        listing_wf(self.model())
    }

    /// Where the listing stands.
    pub fn state(&self) -> (state: AdapterState)
        ensures
            state == self.model().state,
    {
        self.state
    }

    /// Where the addresses come from.
    pub fn source(&self) -> (source: &AddressSource)
        ensures
            *source == self.model().source,
    {
        &self.source
    }

    /// Whether the source of the addresses is at hand.
    pub fn connected(&self) -> (connected: bool)
        ensures
            connected == (self.model().state == AdapterState::Connected || self.model().state
                == AdapterState::Deriving),
    {
        self.state == AdapterState::Connected || self.state == AdapterState::Deriving
    }

    /// The addresses found so far, each with its path.
    fn pairs(&self) -> (list: Vec<HDPathAddress>)
        requires
            self.wf(),
        ensures
            list@ == paired(self.model().paths, self.model().found),
    {
        let mut list: Vec<HDPathAddress> = Vec::new();
        let mut i: usize = 0;
        while i < self.found.len()
            invariant
                i <= self.found.len() <= self.paths.len(),
                list@ == paired(self.paths@, self.found@.take(i as int)),
            decreases self.found.len() - i,
        {
            let item = HDPathAddress { address: self.found[i], hd_path: self.paths[i].clone() };
            list.push(item);
            assert(list@ =~= paired(self.paths@, self.found@.take(i + 1)));
            i += 1;
        }
        assert(self.found@.take(i as int) =~= self.found@);
        list
    }

    /// Goes on with the next path, or ends the listing.
    fn advance(&mut self) -> (step: ListingStep)
        requires
            old(self).wf(),
        ensures
            final(self).wf(),
            (final(self).model(), step@) == advanced(old(self).model()),
    {
        if self.found.len() >= self.paths.len() {
            self.state = AdapterState::Connected;
            ListingStep::Done(Ok(self.pairs()))
        } else {
            match parse_hd_path(self.paths[self.found.len()].as_str()) {
                Ok(path) => {
                    self.state = AdapterState::Deriving;
                    ListingStep::Derive(path)
                },
                Err(_) => {
                    self.state = AdapterState::Connected;
                    ListingStep::Done(Err(VaultError::InvalidPath))
                },
            }
        }
    }

    /// Takes in what happened outside and says what to do next.
    ///
    /// A listing never hands out part of what was asked for: it ends with
    /// an address for every path, with nothing where no device is there,
    /// or with an error.
    pub fn step(&mut self, event: ListingEvent) -> (step: ListingStep)
        requires
            old(self).wf(),
        ensures
            final(self).wf(),
            (final(self).model(), step@) == stepped(old(self).model(), event),
    {
        let ledger = match self.source {
            AddressSource::Ledger => true,
            AddressSource::Mnemonic(_) => false,
        };
        match (self.state, event) {
            (AdapterState::Disconnected, ListingEvent::Start) => {
                self.state = AdapterState::Probing;
                ListingStep::Open
            },
            (AdapterState::Connected, ListingEvent::Start) => self.advance(),
            (AdapterState::Probing, ListingEvent::Opened) => {
                self.state = AdapterState::Connected;
                self.advance()
            },
            (AdapterState::Probing, ListingEvent::Unavailable) => {
                if ledger {
                    self.state = AdapterState::Disconnected;
                    ListingStep::Done(Ok(Vec::new()))
                } else {
                    ListingStep::Wait
                }
            },
            (AdapterState::Probing, ListingEvent::SeedRejected) => {
                if ledger {
                    ListingStep::Wait
                } else {
                    self.state = AdapterState::Disconnected;
                    ListingStep::Done(Err(VaultError::UnsupportedSeedType))
                }
            },
            (AdapterState::Probing, ListingEvent::Removed) => {
                if ledger {
                    self.state = AdapterState::Disconnected;
                    ListingStep::Done(Ok(Vec::new()))
                } else {
                    ListingStep::Wait
                }
            },
            (AdapterState::Deriving, ListingEvent::Address(address)) => {
                self.found.push(address);
                self.state = AdapterState::Connected;
                self.advance()
            },
            (AdapterState::Deriving, ListingEvent::Failed) => {
                self.state = AdapterState::Connected;
                if ledger {
                    ListingStep::Done(Err(VaultError::DeviceError))
                } else {
                    ListingStep::Done(Err(VaultError::InvalidPath))
                }
            },
            (AdapterState::Deriving, ListingEvent::Removed) => {
                if ledger {
                    self.state = AdapterState::Disconnected;
                    ListingStep::Done(Err(VaultError::DeviceError))
                } else {
                    ListingStep::Wait
                }
            },
            (AdapterState::Connected, ListingEvent::Removed) => {
                if ledger {
                    self.state = AdapterState::Disconnected;
                }
                ListingStep::Wait
            },
            _ => ListingStep::Wait,
        }
    }
}

/// A listing that is yet to begin.
pub open spec fn fresh_listing(source: AddressSource, paths: Seq<String>) -> ListingModel {
    ListingModel { source, state: AdapterState::Disconnected, paths, found: Seq::empty() }
}

/// Begins a listing of the addresses that a mnemonic phrase gives at the
/// paths of `hd_path_all`. The phrase is not assumed to be a valid one: the
/// listing has it checked first.
pub fn list_mnemonic_address(hd_path_all: Vec<String>, mnemonic: MnemonicSeed) -> (listing:
    AddressListing)
    ensures
        listing.wf(),
        listing.model() == fresh_listing(AddressSource::Mnemonic(mnemonic), hd_path_all@),
{
    AddressListing {
        source: AddressSource::Mnemonic(mnemonic),
        state: AdapterState::Disconnected,
        paths: hd_path_all,
        found: Vec::new(),
    }
}

/// Begins a listing of the addresses that the attached hardware device
/// gives at the paths of `hd_path_all`. No device is assumed: the listing
/// starts out disconnected and probes first.
pub fn list_ledger_address(hd_path_all: Vec<String>) -> (listing: AddressListing)
    ensures
        listing.wf(),
        listing.model() == fresh_listing(AddressSource::Ledger, hd_path_all@),
{
    AddressListing {
        source: AddressSource::Ledger,
        state: AdapterState::Disconnected,
        paths: hd_path_all,
        found: Vec::new(),
    }
}

/// The listing that a request for addresses begins: by the mnemonic engine
/// for an inline phrase, by the hardware device for every other seed.
pub open spec fn listing_of(description: SeedDescription, hd_path_all: Seq<String>) -> Result<
    ListingModel,
    VaultError,
> {
    match seed_of(description) {
        Ok(seed) => Ok(fresh_listing(source_of(seed), hd_path_all)),
        Err(e) => Err(e),
    }
}

/// Begins the listing of addresses that a request asks for: one address
/// for each path of `hd_path_all`, from the seed that `description`
/// describes. Fails with `UnsupportedSeedType` where the description is of
/// no known kind of seed.
pub fn list_addresses(description: SeedDescription, hd_path_all: Vec<String>) -> (listing: Result<
    AddressListing,
    VaultError,
>)
    ensures
        match listing_of(description, hd_path_all@) {
            Ok(model) => listing matches Ok(l) && l.wf() && l.model() == model,
            Err(e) => listing matches Err(f) && f == e,
        },
{
    match Seed::from_description(description) {
        Ok(seed) => match seed.into_source() {
            AddressSource::Mnemonic(mnemonic) => Ok(list_mnemonic_address(hd_path_all, mnemonic)),
            AddressSource::Ledger => Ok(list_ledger_address(hd_path_all)),
        },
        Err(e) => Err(e),
    }
}

/// Whether a device is connected, given what the attempt to open it came
/// to. An absent or busy device is no error: the answer is `false`.
pub fn is_connected(reply: ListingEvent) -> (connected: bool)
    ensures
        connected == (reply is Opened),
{
    match reply {
        ListingEvent::Opened => true,
        _ => false,
    }
}

/// What the caller of a listing is handed in the end, when it answers each
/// path that is handed out with the next address of `answers`.
pub open spec fn answered(m: ListingModel, step: StepModel, answers: Seq<Address>) -> StepModel
    decreases answers.len(),
{
    match step {
        StepModel::Derive(_) => if answers.len() == 0 {
            step
        } else {
            let next = stepped(m, ListingEvent::Address(answers[0]));
            answered(next.0, next.1, answers.drop_first())
        },
        _ => step,
    }
}

/// Whether every path of a list is well formed.
pub open spec fn all_well_formed(paths: Seq<String>) -> bool {
    forall|i: int| 0 <= i < paths.len() ==> parsed_path(#[trigger] paths[i]@) is Some
}

/// A listing keeps the order and the number of the paths it was asked for.
///
/// Begun on well-formed paths, with a source that opens, and answered with
/// one address for each path, a listing ends with exactly those addresses,
/// each beside its path, in the order asked; a path asked twice stands
/// twice. With a malformed path among them it ends with `InvalidPath` and
/// hands out nothing.
pub proof fn lemma_listing_preserves_paths(
    source: AddressSource,
    paths: Seq<String>,
    answers: Seq<Address>,
)
    requires
        answers.len() == paths.len(),
    ensures
        ({
            let probing = stepped(fresh_listing(source, paths), ListingEvent::Start);
            let opened = stepped(probing.0, ListingEvent::Opened);
            &&& probing.1 == StepModel::Open
            &&& answered(opened.0, opened.1, answers) == if all_well_formed(paths) {
                StepModel::Done(Ok(paired(paths, answers)))
            } else {
                StepModel::Done(Err(VaultError::InvalidPath))
            }
        }),
{
    let m = ListingModel { state: AdapterState::Connected, ..fresh_listing(source, paths) };
    assert(m.found + answers =~= answers);
    lemma_listing_goes_on(m, answers);
}

/// The same of a listing that has come some way already.
proof fn lemma_listing_goes_on(m: ListingModel, rest: Seq<Address>)
    requires
        listing_wf(m),
        m.state == AdapterState::Connected,
        m.found.len() + rest.len() == m.paths.len(),
        forall|i: int| 0 <= i < m.found.len() ==> parsed_path(#[trigger] m.paths[i]@) is Some,
    ensures
        answered(advanced(m).0, advanced(m).1, rest) == if all_well_formed(m.paths) {
            StepModel::Done(Ok(paired(m.paths, m.found + rest)))
        } else {
            StepModel::Done(Err(VaultError::InvalidPath))
        },
    decreases rest.len(),
{
    let k = m.found.len() as int;
    if rest.len() == 0 {
        assert(m.found + rest =~= m.found);
    } else if parsed_path(m.paths[k]@) is Some {
        let deriving = advanced(m).0;
        let next = ListingModel {
            found: m.found.push(rest[0]),
            state: AdapterState::Connected,
            ..deriving
        };
        assert(stepped(deriving, ListingEvent::Address(rest[0])) == advanced(next));
        assert forall|i: int| 0 <= i < next.found.len() implies parsed_path(
            #[trigger] next.paths[i]@,
        ) is Some by {
            if i < k {
                assert(parsed_path(m.paths[i]@) is Some);
            }
        }
        lemma_listing_goes_on(next, rest.drop_first());
        assert(next.found + rest.drop_first() =~= m.found + rest);
    } else {
        assert(!all_well_formed(m.paths));
    }
}

/// A listing ends well only in full, or empty where its device is absent:
/// it never hands out addresses for some of the paths alone.
pub proof fn lemma_listing_is_never_partial(m: ListingModel, event: ListingEvent)
    requires
        listing_wf(m),
    ensures
        listing_wf(stepped(m, event).0),
        stepped(m, event).1 matches StepModel::Done(Ok(list)) ==> {
            ||| list.len() == m.paths.len() && forall|i: int|
                0 <= i < list.len() ==> (#[trigger] list[i]).hd_path == m.paths[i]
            ||| list.len() == 0 && m.source is Ledger && m.state == AdapterState::Probing
        },
{
}

/// A device that is removed leaves its listing disconnected, wherever the
/// listing stood; and what was asked of the device and not yet answered
/// ends in `DeviceError`.
pub proof fn lemma_removal_disconnects(m: ListingModel)
    requires
        listing_wf(m),
        m.source is Ledger,
    ensures
        stepped(m, ListingEvent::Removed).0.state == AdapterState::Disconnected,
        m.state == AdapterState::Deriving ==> stepped(m, ListingEvent::Removed).1
            == StepModel::Done(Err(VaultError::DeviceError)),
{
}

/// A listing from a device that is not there ends empty and without an
/// error, whatever was asked for, and no path is looked at.
pub proof fn lemma_absent_device_lists_nothing(paths: Seq<String>)
    ensures
        ({
            let probing = stepped(fresh_listing(AddressSource::Ledger, paths), ListingEvent::Start);
            &&& probing.1 == StepModel::Open
            &&& stepped(probing.0, ListingEvent::Unavailable).1 == StepModel::Done(
                Ok(Seq::empty()),
            )
            &&& stepped(probing.0, ListingEvent::Unavailable).0.state
                == AdapterState::Disconnected
        }),
{
}

} // verus!
