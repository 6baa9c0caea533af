//! The service-area record and its in-memory store. Positions are plain
//! micro-degree integers, longitude first as in the wire format.

use vstd::prelude::*;

use crate::helpers::{contains_substring, contains_substring_spec, opt_str_view};
use crate::trusted::{new_uuid, now_timestamp};

verus! {

/// A located point in the wire shape: a type tag and a coordinate list,
/// `[longitude, latitude]` in micro-degrees.
#[derive(Debug)]
pub struct Location {
    pub type_: String,
    pub coordinates: Vec<i64>,
}

#[derive(Debug)]
pub struct ServiceArea {
    pub id: String,
    /// Unix seconds at creation.
    pub created_at: i64,
    /// Unix seconds of the last update.
    pub updated_at: i64,
    pub name: String,
    pub country: String,
    pub location: Location,
    /// The covered radius, in meters.
    pub radius: i64,
    pub status: String,
    pub type_: String,
    /// Micro-degrees, read out of the location's second coordinate.
    pub latitude: i64,
    /// Micro-degrees, read out of the location's first coordinate.
    pub longitude: i64,
}

impl ServiceArea {
    /// A fresh service area: a drawn identifier, the clock as both
    /// timestamps, and the latitude and longitude unpacked from the
    /// location's coordinate pair.
    pub fn new(
        name: String,
        country: String,
        location: Location,
        radius: i64,
        status: String,
        type_: String,
    ) -> (r: ServiceArea)
        requires
            location.coordinates@.len() >= 2,
        ensures
            r.id@.len() == 36,
            r.created_at == r.updated_at,
            r.name == name,
            r.country == country,
            r.location == location,
            r.radius == radius,
            r.status == status,
            r.type_ == type_,
            r.latitude == location.coordinates@[1],
            r.longitude == location.coordinates@[0],
    {
        let now = now_timestamp();
        let latitude = location.coordinates[1];
        let longitude = location.coordinates[0];
        ServiceArea {
            id: new_uuid(),
            created_at: now,
            updated_at: now,
            name,
            country,
            latitude,
            longitude,
            location,
            radius,
            status,
            type_,
        }
    }

    /// Replaces the status and moves the update timestamp to the clock.
    pub fn update_status(&mut self, status: String)
        ensures
            final(self).status == status,
            final(self).id == old(self).id,
            final(self).created_at == old(self).created_at,
            final(self).name == old(self).name,
            final(self).country == old(self).country,
            final(self).location == old(self).location,
            final(self).radius == old(self).radius,
            final(self).type_ == old(self).type_,
            final(self).latitude == old(self).latitude,
            final(self).longitude == old(self).longitude,
    {
        self.status = status;
        self.updated_at = now_timestamp();
    }
}

/// The first service area in the list whose id reads `id`.
pub open spec fn find_service_area_spec(s: Seq<ServiceArea>, id: Seq<char>) -> Option<ServiceArea>
    decreases s.len(),
{
    if s.len() == 0 {
        None
    } else if s[0].id@ == id {
        Some(s[0])
    } else {
        find_service_area_spec(s.drop_first(), id)
    }
}

/// No two stored service areas share an id: the uniqueness the keyed map
/// behind the store gives.
pub open spec fn service_area_ids_unique(s: Seq<ServiceArea>) -> bool {
    forall|i: int, j: int|
        0 <= i < j < s.len() ==> (#[trigger] s[i]).id@ != (#[trigger] s[j]).id@
}

/// Whether a service area passes the optional name filter.
pub open spec fn service_area_passes_filter(sa: ServiceArea, filter: Option<Seq<char>>) -> bool {
    match filter {
        Some(needle) => contains_substring_spec(sa.name@, needle),
        None => true,
    }
}

/// The in-memory service-area store: an append-ordered list keyed by id,
/// the earliest entry winning on lookup.
#[derive(Debug)]
pub struct ServiceAreaManager {
    pub service_areas: Vec<ServiceArea>,
}

impl ServiceAreaManager {
    /// The store invariant: service-area ids are unique, as under the
    /// keyed map.
    pub open spec fn wf(self) -> bool {
        service_area_ids_unique(self.service_areas@)
    }

    pub fn new() -> (r: Self)
        ensures
            r.service_areas@.len() == 0,
            r.wf(),
    {
        ServiceAreaManager { service_areas: Vec::new() }
    }

    /// The position of the first service area with this id, tied to the
    /// lookup.
    fn index_of(service_areas: &Vec<ServiceArea>, id: &String) -> (r: Option<usize>)
        ensures
            match r {
                Some(i) => {
                    &&& i < service_areas@.len()
                    &&& service_areas@[i as int].id@ == id@
                    &&& find_service_area_spec(service_areas@, id@) == Some(
                        service_areas@[i as int],
                    )
                    &&& forall|j: int|
                        0 <= j < i ==> (#[trigger] service_areas@[j]).id@ != id@
                },
                None => {
                    &&& find_service_area_spec(service_areas@, id@) is None
                    &&& forall|j: int|
                        0 <= j < service_areas@.len() ==> (#[trigger] service_areas@[j]).id@
                            != id@
                },
            },
    {
        let n = service_areas.len();
        let mut i: usize = 0;
        proof {
            assert(service_areas@.skip(0) =~= service_areas@);
        }
        while i < n
            invariant
                n == service_areas@.len(),
                i <= n,
                forall|j: int| 0 <= j < i ==> (#[trigger] service_areas@[j]).id@ != id@,
                find_service_area_spec(service_areas@.skip(i as int), id@)
                    == find_service_area_spec(service_areas@, id@),
            decreases n - i,
        {
            proof {
                assert(service_areas@.skip(i as int)[0] == service_areas@[i as int]);
            }
            if service_areas[i].id == *id {
                proof {
                    assert(find_service_area_spec(service_areas@.skip(i as int), id@) == Some(
                        service_areas@[i as int],
                    ));
                }
                return Some(i);
            }
            proof {
                assert(service_areas@.skip(i as int).drop_first() =~= service_areas@.skip(i + 1));
            }
            i = i + 1;
        }
        proof {
            assert(service_areas@.skip(n as int) =~= Seq::<ServiceArea>::empty());
        }
        None
    }

    /// Creates and stores a fresh service area, returning a borrow of it.
    /// As under the keyed map, a stored area that already carries the
    /// drawn id is replaced, so ids stay unique.
    pub fn create_service_area(
        &mut self,
        name: String,
        country: String,
        location: Location,
        radius: i64,
        status: String,
        type_: String,
    ) -> (r: Result<&ServiceArea, String>)
        requires
            old(self).wf(),
            location.coordinates@.len() >= 2,
        ensures
            final(self).wf(),
            r is Ok,
            r matches Ok(sa) ==> {
                &&& final(self).service_areas@.len() >= 1
                &&& *sa == final(self).service_areas@.last()
                &&& sa.id@.len() == 36
                &&& sa.name == name
                &&& sa.country == country
                &&& sa.radius == radius
                &&& sa.status == status
                &&& sa.type_ == type_
                &&& sa.latitude == location.coordinates@[1]
                &&& sa.longitude == location.coordinates@[0]
                &&& (find_service_area_spec(old(self).service_areas@, sa.id@) is None ==> {
                    &&& final(self).service_areas@.len() == old(self).service_areas@.len() + 1
                    &&& final(self).service_areas@.drop_last() == old(self).service_areas@
                })
                &&& (find_service_area_spec(old(self).service_areas@, sa.id@) is Some
                    ==> exists|i: int|
                    {
                        &&& 0 <= i < old(self).service_areas@.len()
                        &&& (#[trigger] old(self).service_areas@[i]).id@ == sa.id@
                        &&& final(self).service_areas@.len() == old(self).service_areas@.len()
                        &&& final(self).service_areas@.drop_last() == old(
                            self,
                        ).service_areas@.remove(i)
                    })
            },
    {
        let ghost orig = self.service_areas@;
        let service_area = ServiceArea::new(name, country, location, radius, status, type_);
        let ghost sg = service_area;
        let existing = Self::index_of(&self.service_areas, &service_area.id);
        match existing {
            Some(i) => {
                let _ = self.service_areas.remove(i);
                proof {
                    let rem = self.service_areas@;
                    assert forall|a: int, b: int|
                        0 <= a < b < rem.len() implies (#[trigger] rem[a]).id@ != (
                        #[trigger] rem[b]).id@ by {
                        let a2: int = if a < i {
                            a
                        } else {
                            a + 1
                        };
                        let b2: int = if b < i {
                            b
                        } else {
                            b + 1
                        };
                        assert(rem[a] == orig[a2]);
                        assert(rem[b] == orig[b2]);
                    };
                    assert forall|k: int|
                        0 <= k < rem.len() implies (#[trigger] rem[k]).id@ != sg.id@ by {
                        let k2: int = if k < i {
                            k
                        } else {
                            k + 1
                        };
                        assert(rem[k] == orig[k2]);
                        assert(orig[i as int].id@ == sg.id@);
                    };
                }
            },
            None => {},
        }
        let ghost rem = self.service_areas@;
        self.service_areas.push(service_area);
        proof {
            assert(self.service_areas@.drop_last() =~= rem);
            assert(self.service_areas@.last() == sg);
            assert forall|a: int, b: int|
                0 <= a < b < self.service_areas@.len() implies (
                #[trigger] self.service_areas@[a]).id@ != (#[trigger] self.service_areas@[b]).id@
                 by {
                if b < rem.len() {
                    assert(self.service_areas@[a] == rem[a]);
                    assert(self.service_areas@[b] == rem[b]);
                } else {
                    assert(self.service_areas@[a] == rem[a]);
                    assert(self.service_areas@[b] == sg);
                }
            };
        }
        let idx = self.service_areas.len() - 1;
        Ok(&self.service_areas[idx])
    }

    /// The first stored service area with this id, if any.
    pub fn get_service_area(&self, id: &str) -> (r: Option<&ServiceArea>)
        ensures
            match r {
                Some(sa) => find_service_area_spec(self.service_areas@, id@) == Some(*sa),
                None => find_service_area_spec(self.service_areas@, id@) is None,
            },
    {
        let key = id.to_owned();
        let n = self.service_areas.len();
        let mut i: usize = 0;
        proof {
            assert(self.service_areas@.skip(0) =~= self.service_areas@);
        }
        while i < n
            invariant
                n == self.service_areas@.len(),
                i <= n,
                key@ == id@,
                find_service_area_spec(self.service_areas@.skip(i as int), id@)
                    == find_service_area_spec(self.service_areas@, id@),
            decreases n - i,
        {
            let candidate = &self.service_areas[i];
            proof {
                assert(self.service_areas@.skip(i as int)[0] == self.service_areas@[i as int]);
            }
            if candidate.id == key {
                return Some(candidate);
            }
            proof {
                assert(self.service_areas@.skip(i as int).drop_first() =~= self.service_areas@.skip(
                    i + 1,
                ));
            }
            i = i + 1;
        }
        proof {
            assert(self.service_areas@.skip(n as int) =~= Seq::<ServiceArea>::empty());
        }
        None
    }

    /// Replaces the status of the first service area with this id,
    /// returning a borrow of it, or the not-found error.
    pub fn update_service_area(&mut self, id: &str, status: String) -> (r: Result<
        &ServiceArea,
        String,
    >)
        requires
            old(self).wf(),
        ensures
            final(self).wf(),
            r is Ok <==> find_service_area_spec(old(self).service_areas@, id@) is Some,
            r matches Err(msg) ==> msg@ == "Service area not found"@ && final(self).service_areas@
                == old(self).service_areas@,
            r matches Ok(sa) ==> {
                &&& final(self).service_areas@.len() == old(self).service_areas@.len()
                &&& exists|i: int|
                    {
                        &&& 0 <= i < old(self).service_areas@.len()
                        &&& old(self).service_areas@[i].id@ == id@
                        &&& *sa == (#[trigger] final(self).service_areas@[i])
                        &&& final(self).service_areas@[i].id == old(self).service_areas@[i].id
                        &&& final(self).service_areas@[i].status == status
                        &&& final(self).service_areas@[i].name == old(self).service_areas@[i].name
                        &&& forall|j: int|
                            0 <= j < old(self).service_areas@.len() && j != i
                                ==> #[trigger] final(self).service_areas@[j] == old(
                                self,
                            ).service_areas@[j]
                    }
            },
    {
        let key = id.to_owned();
        let n = self.service_areas.len();
        let mut i: usize = 0;
        proof {
            assert(self.service_areas@.skip(0) =~= self.service_areas@);
        }
        while i < n
            invariant
                self.service_areas@ == old(self).service_areas@,
                service_area_ids_unique(self.service_areas@),
                n == self.service_areas@.len(),
                i <= n,
                key@ == id@,
                find_service_area_spec(self.service_areas@.skip(i as int), id@)
                    == find_service_area_spec(self.service_areas@, id@),
            decreases n - i,
        {
            proof {
                assert(self.service_areas@.skip(i as int)[0] == self.service_areas@[i as int]);
            }
            let hit = self.service_areas[i].id == key;
            if hit {
                let ghost before = self.service_areas@;
                proof {
                    assert(find_service_area_spec(before.skip(i as int), id@) == Some(
                        before[i as int],
                    ));
                }
                let mut service_area = self.service_areas.remove(i);
                service_area.update_status(status);
                let ghost sa2 = service_area;
                self.service_areas.insert(i, service_area);
                proof {
                    let after = self.service_areas@;
                    assert(after[i as int] == sa2);
                    assert(after.len() == before.len());
                    assert forall|j: int|
                        0 <= j < before.len() && j != i implies #[trigger] after[j] == before[j] by {
                        if j < i {
                            assert(after[j] == before.remove(i as int)[j]);
                        } else {
                            assert(after[j] == before.remove(i as int)[j - 1]);
                        }
                    };
                    assert({
                        &&& 0 <= i < before.len()
                        &&& before[i as int].id@ == id@
                        &&& forall|j: int|
                            0 <= j < before.len() && j != i ==> #[trigger] after[j] == before[j]
                    });
                    assert forall|a: int, b: int|
                        0 <= a < b < after.len() implies (#[trigger] after[a]).id@ != (
                        #[trigger] after[b]).id@ by {
                        if a == i {
                            assert(after[a].id == before[a].id);
                        } else {
                            assert(after[a] == before[a]);
                        }
                        if b == i {
                            assert(after[b].id == before[b].id);
                        } else {
                            assert(after[b] == before[b]);
                        }
                    };
                }
                let idx = i;
                return Ok(&self.service_areas[idx]);
            }
            proof {
                assert(self.service_areas@.skip(i as int).drop_first() =~= self.service_areas@.skip(
                    i + 1,
                ));
            }
            i = i + 1;
        }
        proof {
            assert(self.service_areas@.skip(n as int) =~= Seq::<ServiceArea>::empty());
        }
        Err("Service area not found".to_owned())
    }

    /// Removes the first service area with this id; the not-found error
    /// when no service area carries it.
    pub fn delete_service_area(&mut self, id: &str) -> (r: Result<(), String>)
        requires
            old(self).wf(),
        ensures
            final(self).wf(),
            r is Ok <==> find_service_area_spec(old(self).service_areas@, id@) is Some,
            r is Ok ==> exists|i: int|
                {
                    &&& 0 <= i < old(self).service_areas@.len()
                    &&& (#[trigger] old(self).service_areas@[i]).id@ == id@
                    &&& final(self).service_areas@ == old(self).service_areas@.remove(i)
                },
            r matches Err(msg) ==> msg@ == "Service area not found"@ && final(self).service_areas@
                == old(self).service_areas@,
    {
        let key = id.to_owned();
        let n = self.service_areas.len();
        let mut i: usize = 0;
        proof {
            assert(self.service_areas@.skip(0) =~= self.service_areas@);
        }
        while i < n
            invariant
                self.service_areas@ == old(self).service_areas@,
                service_area_ids_unique(self.service_areas@),
                n == self.service_areas@.len(),
                i <= n,
                key@ == id@,
                find_service_area_spec(self.service_areas@.skip(i as int), id@)
                    == find_service_area_spec(self.service_areas@, id@),
            decreases n - i,
        {
            proof {
                assert(self.service_areas@.skip(i as int)[0] == self.service_areas@[i as int]);
            }
            let hit = self.service_areas[i].id == key;
            if hit {
                let ghost before = self.service_areas@;
                proof {
                    assert(find_service_area_spec(before.skip(i as int), id@) == Some(
                        before[i as int],
                    ));
                }
                let _ = self.service_areas.remove(i);
                proof {
                    assert({
                        &&& 0 <= i < before.len()
                        &&& (#[trigger] before[i as int]).id@ == id@
                        &&& self.service_areas@ == before.remove(i as int)
                    });
                    let rem = self.service_areas@;
                    assert forall|a: int, b: int|
                        0 <= a < b < rem.len() implies (#[trigger] rem[a]).id@ != (
                        #[trigger] rem[b]).id@ by {
                        let a2: int = if a < i {
                            a
                        } else {
                            a + 1
                        };
                        let b2: int = if b < i {
                            b
                        } else {
                            b + 1
                        };
                        assert(rem[a] == before[a2]);
                        assert(rem[b] == before[b2]);
                    };
                }
                return Ok(());
            }
            proof {
                assert(self.service_areas@.skip(i as int).drop_first() =~= self.service_areas@.skip(
                    i + 1,
                ));
            }
            i = i + 1;
        }
        proof {
            assert(self.service_areas@.skip(n as int) =~= Seq::<ServiceArea>::empty());
        }
        Err("Service area not found".to_owned())
    }

    /// The stored service areas that pass the optional name filter, in
    /// insertion order.
    pub fn list_service_areas(&self, name: Option<&str>) -> (r: Vec<&ServiceArea>)
        ensures
            r@.map_values(|sa: &ServiceArea| *sa) == self.service_areas@.filter(
                |sa: ServiceArea| service_area_passes_filter(sa, opt_str_view(name)),
            ),
    {
        let ghost pred = |sa: ServiceArea| service_area_passes_filter(sa, opt_str_view(name));
        let mut out: Vec<&ServiceArea> = Vec::new();
        let n = self.service_areas.len();
        let mut i: usize = 0;
        proof {
            reveal_with_fuel(Seq::<ServiceArea>::filter, 2);
            assert(self.service_areas@.take(0) =~= Seq::<ServiceArea>::empty());
            assert(out@.map_values(|sa: &ServiceArea| *sa) =~= self.service_areas@.take(0).filter(
                pred,
            ));
        }
        while i < n
            invariant
                n == self.service_areas@.len(),
                i <= n,
                pred == (|sa: ServiceArea| service_area_passes_filter(sa, opt_str_view(name))),
                out@.map_values(|sa: &ServiceArea| *sa) == self.service_areas@.take(
                    i as int,
                ).filter(pred),
            decreases n - i,
        {
            let candidate = &self.service_areas[i];
            let keep = match name {
                Some(needle) => contains_substring(candidate.name.as_str(), needle),
                None => true,
            };
            proof {
                reveal_with_fuel(Seq::<ServiceArea>::filter, 2);
                assert(self.service_areas@.take(i + 1).drop_last() =~= self.service_areas@.take(
                    i as int,
                ));
                assert(self.service_areas@.take(i + 1).last() == self.service_areas@[i as int]);
                assert(keep == pred(self.service_areas@[i as int]));
                assert(self.service_areas@.take(i + 1).filter(pred) == if pred(
                    self.service_areas@[i as int],
                ) {
                    self.service_areas@.take(i as int).filter(pred).push(
                        self.service_areas@[i as int],
                    )
                } else {
                    self.service_areas@.take(i as int).filter(pred)
                });
            }
            if keep {
                let ghost before = out@;
                out.push(candidate);
                proof {
                    assert(out@.map_values(|sa: &ServiceArea| *sa) =~= before.map_values(
                        |sa: &ServiceArea| *sa,
                    ).push(self.service_areas@[i as int]));
                }
            }
            i = i + 1;
        }
        proof {
            assert(self.service_areas@.take(n as int) =~= self.service_areas@);
        }
        out
    }
}

} // verus!
