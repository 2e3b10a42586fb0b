use crate::loader::{Loader, LoaderState};
use radiobrowser::blocking::{RadioBrowserAPI, StationSearchBuilder};
use radiobrowser::StationOrder;
use vstd::prelude::*;

verus! {

/// How many stations one search asks for.
pub const STATION_SEARCH_LIMIT: &'static str = "20";

#[verifier::external_type_specification]
#[verifier::external_body]
pub struct ExRadioBrowserAPI(RadioBrowserAPI);

#[verifier::external_type_specification]
#[verifier::external_body]
pub struct ExStationSearchBuilder(StationSearchBuilder);

#[verifier::external_type_specification]
pub struct ExStationOrder(StationOrder);

/// The query parameters that a station search holds, by name.
pub uninterp spec fn search_params(search: StationSearchBuilder) -> Map<Seq<char>, Seq<char>>;

/// A station search with no query parameters.
pub open spec fn no_params() -> Map<Seq<char>, Seq<char>> {
    Map::empty()
}

/// How a station search writes a sort key (the `Display` of `StationOrder`).
pub open spec fn order_name(order: StationOrder) -> Seq<char> {
    match order {
        StationOrder::Name => "name"@,
        StationOrder::Url => "url"@,
        StationOrder::Homepage => "homepage"@,
        StationOrder::Favicon => "favicon"@,
        StationOrder::Tags => "tags"@,
        StationOrder::Country => "country"@,
        StationOrder::State => "state"@,
        StationOrder::Language => "language"@,
        StationOrder::Votes => "votes"@,
        StationOrder::Codec => "codec"@,
        StationOrder::Bitrate => "bitrate"@,
        StationOrder::Lastcheckok => "lastcheckok"@,
        StationOrder::Lastchecktime => "lastchecktime"@,
        StationOrder::Clicktimestamp => "clicktimestamp"@,
        StationOrder::Clickcount => "clickcount"@,
        StationOrder::Clicktrend => "clicktrend"@,
        StationOrder::Changetimestamp => "changetimestamp"@,
        StationOrder::Random => "random"@,
    }
}

/// How a station search writes a flag.
pub open spec fn flag_name(flag: bool) -> Seq<char> {
    if flag {
        "true"@
    } else {
        "false"@
    }
}

/// Calls `radiobrowser::blocking::RadioBrowserAPI::get_stations`, which
/// starts a station search with no query parameters; it sends nothing. Which
/// servers the search will ask (those of `api`) is left unsaid.
#[verifier::external_body]
fn new_search(api: &RadioBrowserAPI) -> (search: StationSearchBuilder)
    ensures
        search_params(search) == no_params(),
{
    api.get_stations()
}

/// Calls `StationSearchBuilder::name`, which records the name to search for
/// under the parameter `name`.
#[verifier::external_body]
fn with_name(search: StationSearchBuilder, name: &str) -> (next: StationSearchBuilder)
    ensures
        search_params(next) == search_params(search).insert("name"@, name@),
{
    search.name(name)
}

/// Calls `StationSearchBuilder::limit`, which records how many results to ask
/// for under the parameter `limit`.
#[verifier::external_body]
fn with_limit(search: StationSearchBuilder, limit: &str) -> (next: StationSearchBuilder)
    ensures
        search_params(next) == search_params(search).insert("limit"@, limit@),
{
    search.limit(limit)
}

/// Calls `StationSearchBuilder::reverse`, which records the sort direction
/// under the parameter `reverse`, written `true` or `false`.
#[verifier::external_body]
fn with_reverse(search: StationSearchBuilder, reverse: bool) -> (next: StationSearchBuilder)
    ensures
        search_params(next) == search_params(search).insert("reverse"@, flag_name(reverse)),
{
    search.reverse(reverse)
}

/// Calls `StationSearchBuilder::order`, which records the sort key under the
/// parameter `order`, written as `StationOrder` displays it.
#[verifier::external_body]
fn with_order(search: StationSearchBuilder, order: StationOrder) -> (next: StationSearchBuilder)
    ensures
        search_params(next) == search_params(search).insert("order"@, order_name(order)),
{
    search.order(order)
}

/// The query parameters of the search for `name`.
pub open spec fn station_query(name: Seq<char>) -> Map<Seq<char>, Seq<char>> {
    no_params()
        .insert("name"@, name)
        .insert("limit"@, STATION_SEARCH_LIMIT@)
        .insert("reverse"@, "true"@)
        .insert("order"@, "clickcount"@)
}

/// The station search for `name`: at most `STATION_SEARCH_LIMIT` stations,
/// the most clicked first. Sending it is up to the caller.
pub fn station_search(api: &RadioBrowserAPI, name: &str) -> (search: StationSearchBuilder)
    ensures
        search_params(search) == station_query(name@),
{
    let search = new_search(api);
    let search = with_name(search, name);
    let search = with_limit(search, STATION_SEARCH_LIMIT);
    let search = with_reverse(search, true);
    with_order(search, StationOrder::Clickcount)
}

/// Whatever the name, a station search asks for at most 20 stations, the
/// most clicked first: it holds exactly the name, the limit `20`, `reverse`
/// set to `true` and the order `clickcount`, and the searches for two names
/// differ in the name alone.
pub proof fn law_search_most_clicked_first(name: Seq<char>, other: Seq<char>)
    ensures
        station_query(name).dom() =~= set!["name"@, "limit"@, "reverse"@, "order"@],
        station_query(name)["name"@] == name,
        station_query(name)["limit"@] == "20"@,
        station_query(name)["reverse"@] == "true"@,
        station_query(name)["order"@] == "clickcount"@,
        station_query(name).insert("name"@, other) == station_query(other),
{
    reveal_strlit("name");
    reveal_strlit("limit");
    reveal_strlit("reverse");
    reveal_strlit("order");
    reveal_strlit("20");
    reveal_strlit("true");
    reveal_strlit("clickcount");
    // The four parameter names differ in length or in their first letter.
    assert("name"@.len() == 4 && "limit"@.len() == 5 && "reverse"@.len() == 7 && "order"@.len() == 5);
    assert("limit"@[0] == 'l' && "order"@[0] == 'o');
    assert(station_query(name).insert("name"@, other) =~= station_query(other));
}

/// A station as the station list shows it: its name and the address of its stream.
#[derive(Debug)]
pub struct Station {
    pub name: String,
    pub url: String,
}

/// What the latest station search has produced so far.
#[derive(Debug)]
pub enum RadioState {
    Pending,
    Error(String),
    Complete(Vec<Station>),
}

impl Clone for Station {
    fn clone(&self) -> (s: Self)
        ensures
            s == *self,
    {
        Station { name: self.name.clone(), url: self.url.clone() }
    }
}

/// The station directory and the search it is running.
pub struct RadioApiFetcher {
    api: RadioBrowserAPI,
    state: Loader<Result<Vec<Station>, String>>,
}

impl RadioApiFetcher {
    /// The loader of the search being run.
    pub closed spec fn search(&self) -> Loader<Result<Vec<Station>, String>> {
        self.state
    }

    /// A fetcher for the directory `api`, running the search that `state` receives.
    pub fn new(api: RadioBrowserAPI, state: Loader<Result<Vec<Station>, String>>) -> (f: Self)
        ensures
            f.search() == state,
    {
        Self { api, state }
    }

    /// The search for stations named like `name` in this directory.
    pub fn query_for(&self, name: &str) -> (search: StationSearchBuilder)
        ensures
            search_params(search) == station_query(name@),
    {
        station_search(&self.api, name)
    }

    /// Runs the search that `state` receives from now on; the search run
    /// before is dropped, and nothing it finds is reported.
    pub fn start(&mut self, state: Loader<Result<Vec<Station>, String>>)
        ensures
            final(self).search() == state,
    {
        self.state = state;
    }

    /// What the search being run has produced so far.
    pub fn poll_state(&mut self) -> (r: RadioState)
        ensures
            Loader::polled(old(self).search().result(), final(self).search().result()),
            final(self).search().source() == old(self).search().source(),
            match final(self).search().result() {
                None => r is Pending,
                Some(Ok(list)) => r matches RadioState::Complete(l) && l@ == list@,
                Some(Err(e)) => r == RadioState::Error(e),
            },
    {
        poll_radio(&mut self.state)
    }
}

/// What a station search has produced, as far as its loader has received it.
pub fn poll_radio(loader: &mut Loader<Result<Vec<Station>, String>>) -> (r: RadioState)
    ensures
        Loader::polled(old(loader).result(), final(loader).result()),
        final(loader).source() == old(loader).source(),
        match final(loader).result() {
            None => r is Pending,
            Some(Ok(list)) => r matches RadioState::Complete(l) && l@ == list@,
            Some(Err(e)) => r == RadioState::Error(e),
        },
{
    match loader.get_state() {
        LoaderState::Pending => RadioState::Pending,
        LoaderState::Done(res) => match res {
            Ok(res) => {
                let list = res.clone();
                proof {
                    assert forall|i: int| 0 <= i < list@.len() implies list@[i] == res@[i] by {
                        assert(cloned::<Station>(res[i], list[i]));
                    }
                    assert(list@ =~= res@);
                }
                RadioState::Complete(list)
            },
            Err(err) => RadioState::Error(err.clone()),
        },
    }
}

impl RadioState {
    /// The station at index `i` of a completed search, if there is one.
    pub open spec fn station_at(self, i: int) -> Option<Station> {
        match self {
            RadioState::Complete(list) => if 0 <= i < list@.len() {
                Some(list@[i])
            } else {
                None
            },
            _ => None,
        }
    }

    /// The number of stations of a completed search, when it has any.
    pub open spec fn listed(self) -> Option<nat> {
        match self {
            RadioState::Complete(list) => if list@.len() > 0 {
                Some(list@.len())
            } else {
                None
            },
            _ => None,
        }
    }
}

} // verus!
