//! The zone record and its in-memory store. Geometry is carried as plain
//! micro-degree integers; the store is a simple keyed collection with a
//! name filter on listing.

use vstd::prelude::*;

use crate::helpers::{contains_substring, contains_substring_spec, opt_str_view};
use crate::trusted::{new_uuid, now_timestamp};

verus! {

/// One geographic position in micro-degrees (degrees times ten to the
/// sixth), longitude first as in the wire format.
#[derive(Debug, Clone, Copy, PartialEq, Eq, Structural)]
pub struct GeoPoint {
    pub longitude_e6: i64,
    pub latitude_e6: i64,
}

/// A polygonal border: ring upon ring of positions, with an optional
/// bounding box `(min lng, min lat, max lng, max lat)` in micro-degrees.
#[derive(Debug)]
pub struct Border {
    pub type_: String,
    pub coordinates: Vec<Vec<GeoPoint>>,
    pub bbox: Option<(i64, i64, i64, i64)>,
}

#[derive(Debug)]
pub struct Zone {
    pub id: String,
    /// Unix seconds at creation.
    pub created_at: i64,
    /// Unix seconds of the last update.
    pub updated_at: i64,
    pub name: String,
    pub description: Option<String>,
    pub color: String,
    pub stroke_color: String,
    pub coordinates: Vec<Vec<GeoPoint>>,
    pub service_area: Option<String>,
    pub status: String,
}

impl Zone {
    /// A fresh zone: a drawn identifier, the clock as both timestamps, the
    /// border's rings as its geometry, and `active` status.
    pub fn new(
        name: String,
        border: Border,
        color: String,
        stroke_color: String,
        service_area: Option<String>,
    ) -> (r: Zone)
        ensures
            r.id@.len() == 36,
            r.created_at == r.updated_at,
            r.name == name,
            r.description is None,
            r.color == color,
            r.stroke_color == stroke_color,
            r.coordinates == border.coordinates,
            r.service_area == service_area,
            r.status@ == "active"@,
    {
        let now = now_timestamp();
        Zone {
            id: new_uuid(),
            created_at: now,
            updated_at: now,
            name,
            description: None,
            color,
            stroke_color,
            coordinates: border.coordinates,
            service_area,
            status: "active".to_owned(),
        }
    }

    /// Applies the given fields and moves the update timestamp to the clock.
    pub fn update(&mut self, color: Option<String>, name: Option<String>, status: Option<String>)
        ensures
            final(self).id == old(self).id,
            final(self).created_at == old(self).created_at,
            final(self).description == old(self).description,
            final(self).stroke_color == old(self).stroke_color,
            final(self).coordinates == old(self).coordinates,
            final(self).service_area == old(self).service_area,
            final(self).color == if color is Some {
                color.unwrap()
            } else {
                old(self).color
            },
            final(self).name == if name is Some {
                name.unwrap()
            } else {
                old(self).name
            },
            final(self).status == if status is Some {
                status.unwrap()
            } else {
                old(self).status
            },
    {
        if let Some(c) = color {
            self.color = c;
        }
        if let Some(n) = name {
            self.name = n;
        }
        if let Some(s) = status {
            self.status = s;
        }
        self.updated_at = now_timestamp();
    }
}

/// The first zone in the list whose id reads `id`.
pub open spec fn find_zone_spec(s: Seq<Zone>, id: Seq<char>) -> Option<Zone>
    decreases s.len(),
{
    if s.len() == 0 {
        None
    } else if s[0].id@ == id {
        Some(s[0])
    } else {
        find_zone_spec(s.drop_first(), id)
    }
}

/// No two stored zones share an id: the uniqueness the keyed map behind
/// the store gives.
pub open spec fn zone_ids_unique(s: Seq<Zone>) -> bool {
    forall|i: int, j: int|
        0 <= i < j < s.len() ==> (#[trigger] s[i]).id@ != (#[trigger] s[j]).id@
}

/// Whether a zone passes the optional name filter: no filter admits every
/// zone, a filter admits those whose name contains it.
pub open spec fn zone_passes_filter(z: Zone, filter: Option<Seq<char>>) -> bool {
    match filter {
        Some(needle) => contains_substring_spec(z.name@, needle),
        None => true,
    }
}

/// The in-memory zone store: an append-ordered list keyed by zone id, the
/// earliest entry winning on lookup.
#[derive(Debug)]
pub struct ZoneManager {
    pub zones: Vec<Zone>,
}

impl ZoneManager {
    /// The store invariant: zone ids are unique, as under the keyed map.
    pub open spec fn wf(self) -> bool {
        zone_ids_unique(self.zones@)
    }

    pub fn new() -> (r: Self)
        ensures
            r.zones@.len() == 0,
            r.wf(),
    {
        ZoneManager { zones: Vec::new() }
    }

    /// The position of the first zone with this id, tied to the lookup.
    fn index_of(zones: &Vec<Zone>, id: &String) -> (r: Option<usize>)
        ensures
            match r {
                Some(i) => {
                    &&& i < zones@.len()
                    &&& zones@[i as int].id@ == id@
                    &&& find_zone_spec(zones@, id@) == Some(zones@[i as int])
                    &&& forall|j: int| 0 <= j < i ==> (#[trigger] zones@[j]).id@ != id@
                },
                None => {
                    &&& find_zone_spec(zones@, id@) is None
                    &&& forall|j: int| 0 <= j < zones@.len() ==> (#[trigger] zones@[j]).id@ != id@
                },
            },
    {
        let n = zones.len();
        let mut i: usize = 0;
        proof {
            assert(zones@.skip(0) =~= zones@);
        }
        while i < n
            invariant
                n == zones@.len(),
                i <= n,
                forall|j: int| 0 <= j < i ==> (#[trigger] zones@[j]).id@ != id@,
                find_zone_spec(zones@.skip(i as int), id@) == find_zone_spec(zones@, id@),
            decreases n - i,
        {
            proof {
                assert(zones@.skip(i as int)[0] == zones@[i as int]);
            }
            if zones[i].id == *id {
                proof {
                    assert(find_zone_spec(zones@.skip(i as int), id@) == Some(zones@[i as int]));
                }
                return Some(i);
            }
            proof {
                assert(zones@.skip(i as int).drop_first() =~= zones@.skip(i + 1));
            }
            i = i + 1;
        }
        proof {
            assert(zones@.skip(n as int) =~= Seq::<Zone>::empty());
        }
        None
    }

    /// Creates and stores a fresh zone, returning a borrow of it. As under
    /// the keyed map, a stored zone that already carries the drawn id is
    /// replaced, so ids stay unique.
    pub fn create_zone(
        &mut self,
        name: String,
        border: Border,
        color: String,
        stroke_color: String,
        service_area: Option<String>,
    ) -> (r: &Zone)
        requires
            old(self).wf(),
        ensures
            final(self).wf(),
            final(self).zones@.len() >= 1,
            *r == final(self).zones@.last(),
            r.id@.len() == 36,
            r.name == name,
            r.color == color,
            r.stroke_color == stroke_color,
            r.coordinates == border.coordinates,
            r.service_area == service_area,
            r.status@ == "active"@,
            find_zone_spec(old(self).zones@, r.id@) is None ==> {
                &&& final(self).zones@.len() == old(self).zones@.len() + 1
                &&& final(self).zones@.drop_last() == old(self).zones@
            },
            find_zone_spec(old(self).zones@, r.id@) is Some ==> exists|i: int|
                {
                    &&& 0 <= i < old(self).zones@.len()
                    &&& (#[trigger] old(self).zones@[i]).id@ == r.id@
                    &&& final(self).zones@.len() == old(self).zones@.len()
                    &&& final(self).zones@.drop_last() == old(self).zones@.remove(i)
                },
    {
        let ghost orig = self.zones@;
        let zone = Zone::new(name, border, color, stroke_color, service_area);
        let ghost zg = zone;
        let existing = Self::index_of(&self.zones, &zone.id);
        match existing {
            Some(i) => {
                let _ = self.zones.remove(i);
                proof {
                    let rem = self.zones@;
                    assert forall|a: int, b: int|
                        0 <= a < b < rem.len() implies (#[trigger] rem[a]).id@ != (
                        #[trigger] rem[b]).id@ by {
                        let a2: int = if a < i {
                            a
                        } else {
                            a + 1
                        };
                        let b2: int = if b < i {
                            b
                        } else {
                            b + 1
                        };
                        assert(rem[a] == orig[a2]);
                        assert(rem[b] == orig[b2]);
                    };
                    assert forall|k: int|
                        0 <= k < rem.len() implies (#[trigger] rem[k]).id@ != zg.id@ by {
                        let k2: int = if k < i {
                            k
                        } else {
                            k + 1
                        };
                        assert(rem[k] == orig[k2]);
                        assert(orig[i as int].id@ == zg.id@);
                    };
                }
            },
            None => {},
        }
        let ghost rem = self.zones@;
        self.zones.push(zone);
        proof {
            assert(self.zones@.drop_last() =~= rem);
            assert(self.zones@.last() == zg);
            assert forall|a: int, b: int|
                0 <= a < b < self.zones@.len() implies (#[trigger] self.zones@[a]).id@ != (
                #[trigger] self.zones@[b]).id@ by {
                if b < rem.len() {
                    assert(self.zones@[a] == rem[a]);
                    assert(self.zones@[b] == rem[b]);
                } else {
                    assert(self.zones@[a] == rem[a]);
                    assert(self.zones@[b] == zg);
                }
            };
        }
        let idx = self.zones.len() - 1;
        &self.zones[idx]
    }

    /// The first stored zone with this id, if any.
    pub fn get_zone(&self, id: &str) -> (r: Option<&Zone>)
        ensures
            match r {
                Some(z) => find_zone_spec(self.zones@, id@) == Some(*z),
                None => find_zone_spec(self.zones@, id@) is None,
            },
    {
        let key = id.to_owned();
        let n = self.zones.len();
        let mut i: usize = 0;
        proof {
            assert(self.zones@.skip(0) =~= self.zones@);
        }
        while i < n
            invariant
                n == self.zones@.len(),
                i <= n,
                key@ == id@,
                find_zone_spec(self.zones@.skip(i as int), id@) == find_zone_spec(
                    self.zones@,
                    id@,
                ),
            decreases n - i,
        {
            let candidate = &self.zones[i];
            proof {
                assert(self.zones@.skip(i as int)[0] == self.zones@[i as int]);
            }
            if candidate.id == key {
                return Some(candidate);
            }
            proof {
                assert(self.zones@.skip(i as int).drop_first() =~= self.zones@.skip(i + 1));
            }
            i = i + 1;
        }
        proof {
            assert(self.zones@.skip(n as int) =~= Seq::<Zone>::empty());
        }
        None
    }

    /// Applies the given fields to the first zone with this id, returning a
    /// borrow of it, or the not-found error when no zone carries the id.
    pub fn update_zone(
        &mut self,
        id: &str,
        color: Option<String>,
        name: Option<String>,
        status: Option<String>,
    ) -> (r: Result<&Zone, String>)
        requires
            old(self).wf(),
        ensures
            final(self).wf(),
            r is Ok <==> find_zone_spec(old(self).zones@, id@) is Some,
            r matches Err(msg) ==> msg@ == "Zone not found"@ && final(self).zones@ == old(
                self,
            ).zones@,
            r matches Ok(z) ==> {
                &&& final(self).zones@.len() == old(self).zones@.len()
                &&& exists|i: int|
                    {
                        &&& 0 <= i < old(self).zones@.len()
                        &&& old(self).zones@[i].id@ == id@
                        &&& *z == (#[trigger] final(self).zones@[i])
                        &&& final(self).zones@[i].id == old(self).zones@[i].id
                        &&& final(self).zones@[i].color == if color is Some {
                            color.unwrap()
                        } else {
                            old(self).zones@[i].color
                        }
                        &&& final(self).zones@[i].name == if name is Some {
                            name.unwrap()
                        } else {
                            old(self).zones@[i].name
                        }
                        &&& final(self).zones@[i].status == if status is Some {
                            status.unwrap()
                        } else {
                            old(self).zones@[i].status
                        }
                        &&& forall|j: int|
                            0 <= j < old(self).zones@.len() && j != i
                                ==> #[trigger] final(self).zones@[j] == old(self).zones@[j]
                    }
            },
    {
        let key = id.to_owned();
        let n = self.zones.len();
        let mut i: usize = 0;
        proof {
            assert(self.zones@.skip(0) =~= self.zones@);
        }
        while i < n
            invariant
                self.zones@ == old(self).zones@,
                zone_ids_unique(self.zones@),
                n == self.zones@.len(),
                i <= n,
                key@ == id@,
                find_zone_spec(self.zones@.skip(i as int), id@) == find_zone_spec(
                    self.zones@,
                    id@,
                ),
            decreases n - i,
        {
            proof {
                assert(self.zones@.skip(i as int)[0] == self.zones@[i as int]);
            }
            let hit = self.zones[i].id == key;
            if hit {
                let ghost before = self.zones@;
                proof {
                    assert(find_zone_spec(before.skip(i as int), id@) == Some(before[i as int]));
                }
                let mut zone = self.zones.remove(i);
                zone.update(color, name, status);
                let ghost z2 = zone;
                self.zones.insert(i, zone);
                proof {
                    let after = self.zones@;
                    assert(after[i as int] == z2);
                    assert(after.len() == before.len());
                    assert forall|j: int|
                        0 <= j < before.len() && j != i implies #[trigger] after[j] == before[j] by {
                        if j < i {
                            assert(after[j] == before.remove(i as int)[j]);
                        } else {
                            assert(after[j] == before.remove(i as int)[j - 1]);
                        }
                    };
                    assert({
                        &&& 0 <= i < before.len()
                        &&& before[i as int].id@ == id@
                        &&& forall|j: int|
                            0 <= j < before.len() && j != i ==> #[trigger] after[j] == before[j]
                    });
                    assert forall|a: int, b: int|
                        0 <= a < b < after.len() implies (#[trigger] after[a]).id@ != (
                        #[trigger] after[b]).id@ by {
                        if a == i {
                            assert(after[a].id == before[a].id);
                        } else {
                            assert(after[a] == before[a]);
                        }
                        if b == i {
                            assert(after[b].id == before[b].id);
                        } else {
                            assert(after[b] == before[b]);
                        }
                    };
                }
                let idx = i;
                return Ok(&self.zones[idx]);
            }
            proof {
                assert(self.zones@.skip(i as int).drop_first() =~= self.zones@.skip(i + 1));
            }
            i = i + 1;
        }
        proof {
            assert(self.zones@.skip(n as int) =~= Seq::<Zone>::empty());
        }
        Err("Zone not found".to_owned())
    }

    /// Removes the first zone with this id; the not-found error when no
    /// zone carries it.
    pub fn delete_zone(&mut self, id: &str) -> (r: Result<bool, String>)
        requires
            old(self).wf(),
        ensures
            final(self).wf(),
            r is Ok <==> find_zone_spec(old(self).zones@, id@) is Some,
            r matches Ok(removed) ==> removed && exists|i: int|
                {
                    &&& 0 <= i < old(self).zones@.len()
                    &&& (#[trigger] old(self).zones@[i]).id@ == id@
                    &&& final(self).zones@ == old(self).zones@.remove(i)
                },
            r matches Err(msg) ==> msg@ == "Zone not found"@ && final(self).zones@ == old(
                self,
            ).zones@,
    {
        let key = id.to_owned();
        let n = self.zones.len();
        let mut i: usize = 0;
        proof {
            assert(self.zones@.skip(0) =~= self.zones@);
        }
        while i < n
            invariant
                self.zones@ == old(self).zones@,
                zone_ids_unique(self.zones@),
                n == self.zones@.len(),
                i <= n,
                key@ == id@,
                find_zone_spec(self.zones@.skip(i as int), id@) == find_zone_spec(
                    self.zones@,
                    id@,
                ),
            decreases n - i,
        {
            proof {
                assert(self.zones@.skip(i as int)[0] == self.zones@[i as int]);
            }
            let hit = self.zones[i].id == key;
            if hit {
                let ghost before = self.zones@;
                proof {
                    assert(find_zone_spec(before.skip(i as int), id@) == Some(before[i as int]));
                }
                let _ = self.zones.remove(i);
                proof {
                    assert({
                        &&& 0 <= i < before.len()
                        &&& (#[trigger] before[i as int]).id@ == id@
                        &&& self.zones@ == before.remove(i as int)
                    });
                    let rem = self.zones@;
                    assert forall|a: int, b: int|
                        0 <= a < b < rem.len() implies (#[trigger] rem[a]).id@ != (
                        #[trigger] rem[b]).id@ by {
                        let a2: int = if a < i {
                            a
                        } else {
                            a + 1
                        };
                        let b2: int = if b < i {
                            b
                        } else {
                            b + 1
                        };
                        assert(rem[a] == before[a2]);
                        assert(rem[b] == before[b2]);
                    };
                }
                return Ok(true);
            }
            proof {
                assert(self.zones@.skip(i as int).drop_first() =~= self.zones@.skip(i + 1));
            }
            i = i + 1;
        }
        proof {
            assert(self.zones@.skip(n as int) =~= Seq::<Zone>::empty());
        }
        Err("Zone not found".to_owned())
    }

    /// The stored zones that pass the optional name filter, in insertion
    /// order.
    pub fn list_zones(&self, name: Option<&str>) -> (r: Vec<&Zone>)
        ensures
            r@.map_values(|z: &Zone| *z) == self.zones@.filter(
                |z: Zone| zone_passes_filter(z, opt_str_view(name)),
            ),
    {
        let ghost pred = |z: Zone| zone_passes_filter(z, opt_str_view(name));
        let mut out: Vec<&Zone> = Vec::new();
        let n = self.zones.len();
        let mut i: usize = 0;
        proof {
            reveal_with_fuel(Seq::<Zone>::filter, 2);
            assert(self.zones@.take(0) =~= Seq::<Zone>::empty());
            assert(out@.map_values(|z: &Zone| *z) =~= self.zones@.take(0).filter(pred));
        }
        while i < n
            invariant
                n == self.zones@.len(),
                i <= n,
                pred == (|z: Zone| zone_passes_filter(z, opt_str_view(name))),
                out@.map_values(|z: &Zone| *z) == self.zones@.take(i as int).filter(pred),
            decreases n - i,
        {
            let candidate = &self.zones[i];
            let keep = match name {
                Some(needle) => contains_substring(candidate.name.as_str(), needle),
                None => true,
            };
            proof {
                reveal_with_fuel(Seq::<Zone>::filter, 2);
                assert(self.zones@.take(i + 1).drop_last() =~= self.zones@.take(i as int));
                assert(self.zones@.take(i + 1).last() == self.zones@[i as int]);
                assert(keep == pred(self.zones@[i as int]));
                assert(self.zones@.take(i + 1).filter(pred) == if pred(self.zones@[i as int]) {
                    self.zones@.take(i as int).filter(pred).push(self.zones@[i as int])
                } else {
                    self.zones@.take(i as int).filter(pred)
                });
            }
            if keep {
                let ghost before = out@;
                out.push(candidate);
                proof {
                    assert(out@.map_values(|z: &Zone| *z) =~= before.map_values(
                        |z: &Zone| *z,
                    ).push(self.zones@[i as int]));
                }
            }
            i = i + 1;
        }
        proof {
            assert(self.zones@.take(n as int) =~= self.zones@);
        }
        out
    }
}

} // verus!
