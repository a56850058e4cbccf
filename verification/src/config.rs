//! The configuration that the proxy serves from: where it listens, and the
//! table of its routes.

use crate::error::{ConfigError, RecordError};
use crate::path::{format_path, normalized};
use crate::record::{Record, RecordView, Route, RouteView};
use vstd::hash_map::StringHashMap;
use vstd::prelude::*;

verus! {

/// How much the proxy logs.
#[derive(Clone, Copy, Debug, PartialEq, Eq, Structural)]
pub enum LogginLevel {
    INFO,
    TRACE,
    DEBUG,
}

/// Where the proxy listens, and how it behaves as a server.
#[derive(Debug, PartialEq, Eq)]
pub struct Server {
    pub port: String,
    pub host: String,
    pub cors: Option<String>,
    pub logging: Option<LogginLevel>,
}

/// The configuration: the server's settings and the routes, each under the
/// key of its path.
pub struct Config {
    pub server: Server,
    pub records: StringHashMap<Record>,
}

/// The key under which a route is held.
pub open spec fn key_of(route: RouteView) -> Seq<char> {
    normalized(route.path)
}

/// What is wrong with the definition at `i`, given those before it: it gives
/// no record, or an earlier one has its key.
pub open spec fn fault_at(routes: Seq<RouteView>, i: int) -> Option<ConfigError> {
    match routes[i].record() {
        Err(error) => Some(ConfigError::Route(i as usize, error)),
        Ok(_) => if exists|j: int| 0 <= j < i && key_of(routes[j]) == key_of(routes[i]) {
            Some(ConfigError::DuplicatePath(i as usize))
        } else {
            None
        },
    }
}

/// The fault of the first definition that has one.
pub open spec fn first_fault(routes: Seq<RouteView>) -> Option<ConfigError>
    decreases routes.len(),
{
    if routes.len() == 0 {
        None
    } else {
        match first_fault(routes.drop_last()) {
            Some(fault) => Some(fault),
            None => fault_at(routes, routes.len() - 1),
        }
    }
}

/// Whether every definition gives a record and no two have one key.
pub open spec fn is_sound(routes: Seq<RouteView>) -> bool {
    &&& forall|i: int| 0 <= i < routes.len() ==> (#[trigger] routes[i]).record() is Ok
    &&& forall|i: int, j: int|
        0 <= i < j < routes.len() ==> key_of(#[trigger] routes[i]) != key_of(#[trigger] routes[j])
}

/// The file that the configuration is read from: the first argument after the
/// program's name, and `config.yaml` where there is none.
pub fn config_path(arguments: &Vec<String>) -> (path: &str)
    ensures
        path@ == if arguments.len() > 1 {
            arguments[1]@
        } else {
            "config.yaml"@
        },
{
    if arguments.len() > 1 {
        arguments[1].as_str()
    } else {
        "config.yaml"
    }
}

impl Server {
    /// The address to listen on: host and port with a colon between them.
    pub fn address(&self) -> (addr: String)
        ensures
            addr@ == self.host@ + seq![':'] + self.port@,
    {
        let mut addr = self.host.clone();
        proof {
            reveal_strlit(":");
        }
        addr.append(":");
        addr.append(self.port.as_str());
        addr
    }
}

impl Config {
    /// The record held under `key`, if there is one.
    pub open spec fn find(&self, key: Seq<char>) -> Option<RecordView> {
        if self.records@.contains_key(key) {
            Some(self.records@[key]@)
        } else {
            None
        }
    }

    /// Whether every record of the table is well formed.
    pub open spec fn wf(&self) -> bool {
        forall|key: Seq<char>| #[trigger]
            self.records@.contains_key(key) ==> self.records@[key]@.wf()
    }

    /// Whether the table holds exactly the records of `routes`, each under
    /// the key of its path.
    pub open spec fn holds(&self, routes: Seq<RouteView>) -> bool {
        &&& forall|key: Seq<char>| #[trigger]
            self.records@.contains_key(key) <==> exists|i: int|
                0 <= i < routes.len() && key_of(routes[i]) == key
        &&& forall|i: int|
            0 <= i < routes.len() ==> routes[i].record() == Ok::<RecordView, RecordError>(
                #[trigger] self.records@[key_of(routes[i])]@,
            )
    }

    /// Builds the configuration from the server's settings and the route
    /// definitions. All or nothing: the first definition that gives no record,
    /// or whose key an earlier one has, fails the whole.
    pub fn new(server: Server, routes: Vec<Route>) -> (config: Result<Config, ConfigError>)
        ensures
            config is Ok <==> is_sound(routes.deep_view()),
            match config {
                Ok(config) => {
                    &&& first_fault(routes.deep_view()) is None
                    &&& config.server == server
                    &&& config.holds(routes.deep_view())
                    &&& config.wf()
                },
                Err(error) => first_fault(routes.deep_view()) == Some(error),
            },
    {
        let ghost views = routes.deep_view();
        proof {
            faultless_is_sound(views);
        }
        let mut records: StringHashMap<Record> = StringHashMap::new();
        let count: usize = routes.len();
        let mut i: usize = 0;
        for route in iter: routes
            invariant
                i == iter.index(),
                i <= views.len() == count,
                iter.seq() == routes@,
                views == routes.deep_view(),
                first_fault(views.take(i as int)) is None,
                forall|key: Seq<char>| #[trigger]
                    records@.contains_key(key) <==> exists|j: int|
                        0 <= j < i && key_of(views[j]) == key,
                forall|j: int|
                    0 <= j < i ==> views[j].record() == Ok::<RecordView, RecordError>(
                        #[trigger] records@[key_of(views[j])]@,
                    ),
                forall|key: Seq<char>| #[trigger]
                    records@.contains_key(key) ==> records@[key]@.wf(),
        {
            assert(views.take(i + 1).drop_last() =~= views.take(i as int));
            let key = format_path(route.path.as_str());
            let record = match Record::new(route) {
                Ok(record) => record,
                Err(error) => {
                    proof {
                        fault_stops(views, i as int);
                    }
                    return Err(ConfigError::Route(i, error));
                },
            };
            if records.contains_key(key.as_str()) {
                proof {
                    fault_stops(views, i as int);
                }
                return Err(ConfigError::DuplicatePath(i));
            }
            records.insert(key, record);
            i += 1;
        }
        assert(views.take(i as int) =~= views);
        Ok(Config { server, records })
    }

    /// Looks up the record for a key. The match is exact: no prefix, no
    /// pattern.
    pub fn lookup(&self, path: &str) -> (found: Option<&Record>)
        ensures
            match found {
                Some(record) => {
                    &&& self.records@.contains_key(path@)
                    &&& *record == self.records@[path@]
                },
                None => !self.records@.contains_key(path@),
            },
            match found {
                Some(record) => self.find(path@) == Some(record@),
                None => self.find(path@) is None,
            },
    {
        self.records.get(path)
    }
}

/// A fault among the first definitions is the fault of the whole list.
proof fn fault_stops(routes: Seq<RouteView>, i: int)
    requires
        0 <= i < routes.len(),
        first_fault(routes.take(i)) is None,
        fault_at(routes, i) is Some,
    ensures
        first_fault(routes) == fault_at(routes, i),
    decreases routes.len(),
{
    if i < routes.len() - 1 {
        let shorter = routes.drop_last();
        assert(shorter.take(i) =~= routes.take(i));
        assert(fault_at(shorter, i) == fault_at(routes, i)) by {
            assert forall|j: int| 0 <= j < i implies shorter[j] == routes[j] by {}
        }
        fault_stops(shorter, i);
    }
}

/// A list of definitions is without fault exactly when each of them gives a
/// record and their keys differ from one another.
pub proof fn faultless_is_sound(routes: Seq<RouteView>)
    ensures
        first_fault(routes) is None <==> is_sound(routes),
    decreases routes.len(),
{
    if routes.len() > 0 {
        let shorter = routes.drop_last();
        faultless_is_sound(shorter);
        assert forall|i: int| 0 <= i < shorter.len() implies shorter[i] == routes[i] by {}
    }
}

/// Every configured route is found under the key of its path, and what is
/// found is its record.
pub proof fn every_route_is_found(config: Config, routes: Seq<RouteView>, i: int)
    requires
        config.holds(routes),
        0 <= i < routes.len(),
    ensures
        config.find(normalized(routes[i].path)) matches Some(record) && routes[i].record() == Ok::<
            RecordView,
            RecordError,
        >(record),
{
    assert(key_of(routes[i]) == normalized(routes[i].path));
}

} // verus!
