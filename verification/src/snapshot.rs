//! The snapshot of all known media-player endpoints.
//!
//! Discovery lists bus names and keeps those under the player namespace
//! prefix. For each identity the bus is then queried: a connect failure
//! drops the endpoint from the snapshot, a failed metadata or volume read
//! leaves that field unknown. The snapshot preserves the order of the
//! identity list it was built from.

use vstd::prelude::*;

use crate::metadata::{metadata_of, MetadataV, MprisPlayerMetadata, Property, PropertyV};
use crate::volume::volume_percent_of_native;

verus! {

/// The state of one endpoint as the snapshot records it: its identity, its
/// metadata when known, and its volume as a percentage (hundredths of a
/// percent) when known.
#[derive(Debug, Clone, PartialEq)]
pub struct MprisPlayerData {
    pub service: String,
    pub metadata: Option<MprisPlayerMetadata>,
    pub volume: Option<u32>,
}

/// The mathematical shape of `MprisPlayerData`.
pub struct PlayerDataV {
    pub service: Seq<char>,
    pub metadata: Option<MetadataV>,
    pub volume: Option<u32>,
}

impl View for MprisPlayerData {
    type V = PlayerDataV;

    open spec fn view(&self) -> PlayerDataV {
        PlayerDataV {
            service: self.service@,
            metadata: match self.metadata {
                Some(m) => Some(m@),
                None => None,
            },
            volume: self.volume,
        }
    }
}

impl DeepView for MprisPlayerData {
    type V = PlayerDataV;

    open spec fn deep_view(&self) -> PlayerDataV {
        self@
    }
}

/// What one endpoint answered when queried: the raw metadata properties if
/// that read succeeded, and the native volume (millionths of full scale) if
/// that read succeeded.
#[derive(Debug, Clone, PartialEq)]
pub struct EndpointReadings {
    pub metadata: Option<Vec<Property>>,
    pub volume: Option<u32>,
}

/// The outcome of querying one endpoint identity: its readings after a
/// successful connect, or nothing when the connect itself failed.
#[derive(Debug, Clone, PartialEq)]
pub struct EndpointQuery {
    pub service: String,
    pub readings: Option<EndpointReadings>,
}

/// The mathematical shape of `EndpointReadings`.
pub struct ReadingsV {
    pub metadata: Option<Seq<PropertyV>>,
    pub volume: Option<u32>,
}

/// The mathematical shape of `EndpointQuery`.
pub struct QueryV {
    pub service: Seq<char>,
    pub readings: Option<ReadingsV>,
}

impl View for EndpointReadings {
    type V = ReadingsV;

    open spec fn view(&self) -> ReadingsV {
        ReadingsV {
            metadata: match self.metadata {
                Some(ref props) => Some(props.deep_view()),
                None => None,
            },
            volume: self.volume,
        }
    }
}

impl View for EndpointQuery {
    type V = QueryV;

    open spec fn view(&self) -> QueryV {
        QueryV {
            service: self.service@,
            readings: match self.readings {
                Some(ref rd) => Some(rd@),
                None => None,
            },
        }
    }
}

impl DeepView for EndpointQuery {
    type V = QueryV;

    open spec fn deep_view(&self) -> QueryV {
        self@
    }
}

/// The snapshot entry one successfully connected endpoint contributes: the
/// metadata its raw properties denote, and its volume scaled from native
/// fixed-point to a percentage.
pub open spec fn entry_spec(q: QueryV, rd: ReadingsV) -> PlayerDataV {
    PlayerDataV {
        service: q.service,
        metadata: match rd.metadata {
            Some(props) => Some(metadata_of(props)),
            None => None,
        },
        volume: match rd.volume {
            Some(n) => Some((n / 100) as u32),
            None => None,
        },
    }
}

/// The snapshot a sequence of query outcomes denotes: one entry per
/// successfully connected endpoint, in query order; failed connects are
/// dropped without a placeholder.
pub open spec fn snapshot_spec(qs: Seq<QueryV>) -> Seq<PlayerDataV>
    decreases qs.len(),
{
    if qs.len() == 0 {
        Seq::empty()
    } else {
        match qs[0].readings {
            None => snapshot_spec(qs.drop_first()),
            Some(rd) => seq![entry_spec(qs[0], rd)] + snapshot_spec(qs.drop_first()),
        }
    }
}

/// One more query outcome extends the snapshot by one entry exactly when the
/// endpoint connected, and by nothing otherwise.
pub proof fn lemma_snapshot_push(qs: Seq<QueryV>, q: QueryV)
    ensures
        snapshot_spec(qs.push(q)) == match q.readings {
            None => snapshot_spec(qs),
            Some(rd) => snapshot_spec(qs).push(entry_spec(q, rd)),
        },
    decreases qs.len(),
{
    reveal_with_fuel(snapshot_spec, 3);
    let pushed = qs.push(q);
    assert(pushed[0] == if qs.len() == 0 {
        q
    } else {
        qs[0]
    });
    if qs.len() == 0 {
        assert(pushed.drop_first() =~= Seq::<QueryV>::empty());
        match q.readings {
            None => {
                assert(snapshot_spec(pushed) =~= snapshot_spec(qs));
            },
            Some(rd) => {
                assert(snapshot_spec(pushed) =~= snapshot_spec(qs).push(entry_spec(q, rd)));
            },
        }
    } else {
        assert(pushed.drop_first() =~= qs.drop_first().push(q));
        lemma_snapshot_push(qs.drop_first(), q);
        assert(pushed[0] == qs[0]);
        match q.readings {
            None => {
                assert(snapshot_spec(pushed) =~= snapshot_spec(qs));
            },
            Some(rd) => {
                assert(snapshot_spec(pushed) =~= snapshot_spec(qs).push(entry_spec(q, rd)));
            },
        }
    }
}

/// Build the snapshot from the outcome of querying each endpoint identity:
/// exactly the connected endpoints survive, in input order, each with the
/// fields its reads yielded.
pub fn build_snapshot(queries: &Vec<EndpointQuery>) -> (r: Vec<MprisPlayerData>)
    ensures
        r.deep_view() == snapshot_spec(queries.deep_view()),
{
    let mut r: Vec<MprisPlayerData> = Vec::new();
    let n = queries.len();
    let mut i: usize = 0;
    while i < n
        invariant
            n == queries@.len(),
            i <= n,
            r.deep_view() == snapshot_spec(queries.deep_view().take(i as int)),
        decreases n - i,
    {
        let ghost prev = r.deep_view();
        match &queries[i].readings {
            None => {},
            Some(rd) => {
                let md: Option<MprisPlayerMetadata> = match &rd.metadata {
                    Some(props) => Some(MprisPlayerMetadata::from_properties(props)),
                    None => None,
                };
                let vol: Option<u32> = match rd.volume {
                    Some(native) => Some(volume_percent_of_native(native)),
                    None => None,
                };
                let entry = MprisPlayerData {
                    service: queries[i].service.clone(),
                    metadata: md,
                    volume: vol,
                };
                proof {
                    let qv = queries.deep_view()[i as int];
                    assert(qv.readings == Some(rd@));
                    assert(entry@ == entry_spec(qv, rd@));
                }
                r.push(entry);
            },
        }
        proof {
            let qs = queries.deep_view();
            assert(qs.take((i + 1) as int) =~= qs.take(i as int).push(qs[i as int]));
            lemma_snapshot_push(qs.take(i as int), qs[i as int]);
            match qs[i as int].readings {
                None => {
                    assert(r.deep_view() =~= prev);
                },
                Some(rd) => {
                    assert(r.deep_view() =~= prev.push(entry_spec(qs[i as int], rd)));
                },
            }
        }
        i += 1;
    }
    proof {
        assert(queries.deep_view().take(n as int) =~= queries.deep_view());
    }
    r
}

/// How many of the queried endpoints connected successfully.
pub open spec fn connected_count(qs: Seq<QueryV>) -> nat
    decreases qs.len(),
{
    if qs.len() == 0 {
        0
    } else {
        (if qs[0].readings is Some {
            1nat
        } else {
            0nat
        }) + connected_count(qs.drop_first())
    }
}

/// The identities of the successfully connected endpoints, in query order.
pub open spec fn connected_services(qs: Seq<QueryV>) -> Seq<Seq<char>>
    decreases qs.len(),
{
    if qs.len() == 0 {
        Seq::empty()
    } else {
        match qs[0].readings {
            None => connected_services(qs.drop_first()),
            Some(_) => seq![qs[0].service] + connected_services(qs.drop_first()),
        }
    }
}

/// The snapshot-builder law: of N queried identities of which K failed to
/// connect, the snapshot holds exactly N - K entries, and its entries are
/// exactly the successfully connected identities, order preserved.
pub proof fn lemma_snapshot_builder(qs: Seq<QueryV>)
    ensures
        snapshot_spec(qs).len() == connected_count(qs),
        connected_count(qs) + (qs.len() - connected_count(qs)) == qs.len(),
        connected_count(qs) <= qs.len(),
        snapshot_spec(qs).map_values(|d: PlayerDataV| d.service) == connected_services(qs),
    decreases qs.len(),
{
    if qs.len() == 0 {
        assert(snapshot_spec(qs).map_values(|d: PlayerDataV| d.service) =~= connected_services(
            qs,
        ));
    } else {
        lemma_snapshot_builder(qs.drop_first());
        assert(snapshot_spec(qs).map_values(|d: PlayerDataV| d.service) =~= connected_services(
            qs,
        ));
    }
}

/// No two members of `s` are equal.
pub open spec fn distinct_names(s: Seq<Seq<char>>) -> bool {
    forall|i: int, j: int| 0 <= i < j < s.len() ==> s[i] != s[j]
}

/// Every connected identity was one of the queried identities.
proof fn lemma_connected_membership(qs: Seq<QueryV>, x: Seq<char>)
    requires
        connected_services(qs).contains(x),
    ensures
        exists|j: int| 0 <= j < qs.len() && qs[j].service == x,
    decreases qs.len(),
{
    let cs = connected_services(qs);
    let rest = qs.drop_first();
    let k = choose|k: int| 0 <= k < cs.len() && cs[k] == x;
    match qs[0].readings {
        None => {
            lemma_connected_membership(rest, x);
            let j = choose|j: int| 0 <= j < rest.len() && rest[j].service == x;
            assert(qs[j + 1].service == x);
        },
        Some(_) => {
            if k == 0 {
                assert(qs[0].service == x);
            } else {
                assert(connected_services(rest)[k - 1] == x);
                assert(connected_services(rest).contains(x));
                lemma_connected_membership(rest, x);
                let j = choose|j: int| 0 <= j < rest.len() && rest[j].service == x;
                assert(qs[j + 1].service == x);
            }
        },
    }
}

/// The snapshot invariant: queried over distinct identities — and discovery
/// hands the builder a bus-name listing, whose names are distinct — the
/// snapshot holds at most one entry per endpoint identity.
pub proof fn lemma_snapshot_distinct(qs: Seq<QueryV>)
    requires
        distinct_names(qs.map_values(|q: QueryV| q.service)),
    ensures
        distinct_names(connected_services(qs)),
        distinct_names(snapshot_spec(qs).map_values(|d: PlayerDataV| d.service)),
    decreases qs.len(),
{
    lemma_snapshot_builder(qs);
    if qs.len() == 0 {
    } else {
        let rest = qs.drop_first();
        let sv = qs.map_values(|q: QueryV| q.service);
        let rv = rest.map_values(|q: QueryV| q.service);
        assert forall|i: int, j: int| #![trigger rv[i], rv[j]] 0 <= i < j < rv.len() implies rv[i]
            != rv[j] by {
            assert(sv[i + 1] == rv[i]);
            assert(sv[j + 1] == rv[j]);
        }
        lemma_snapshot_distinct(rest);
        let cs = connected_services(qs);
        match qs[0].readings {
            None => {
            },
            Some(_) => {
                assert forall|i: int, j: int| #![trigger cs[i], cs[j]] 0 <= i < j < cs.len()
                    implies cs[i] != cs[j] by {
                    if i == 0 {
                        if cs[j] == qs[0].service {
                            assert(connected_services(rest)[j - 1] == qs[0].service);
                            assert(connected_services(rest).contains(qs[0].service));
                            lemma_connected_membership(rest, qs[0].service);
                            let w = choose|w: int|
                                0 <= w < rest.len() && rest[w].service == qs[0].service;
                            assert(sv[w + 1] == sv[0]);
                            assert(false);
                        }
                    } else {
                        assert(cs[i] == connected_services(rest)[i - 1]);
                        assert(cs[j] == connected_services(rest)[j - 1]);
                    }
                }
            },
        }
    }
}

/// The whole service: the current snapshot, an ordered sequence of player
/// states with at most one entry per endpoint identity.
#[derive(Debug, Clone, PartialEq)]
pub struct MprisPlayerService {
    pub data: Vec<MprisPlayerData>,
}

impl View for MprisPlayerService {
    type V = Seq<PlayerDataV>;

    open spec fn view(&self) -> Seq<PlayerDataV> {
        self.data.deep_view()
    }
}

impl MprisPlayerService {
    /// Replace the snapshot wholesale with the one a fresh rebuild produced;
    /// the snapshot is never mutated in place.
    pub fn update(&mut self, event: Vec<MprisPlayerData>)
        ensures
            final(self)@ == event.deep_view(),
    {
        self.data = event;
    }
}

} // verus!
