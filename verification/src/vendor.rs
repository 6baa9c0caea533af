//! The vendor record and its in-memory store: a simple keyed collection
//! with no networking. Creation draws a fresh identifier and clock reading;
//! the slug is always the lower-cased, hyphen-joined form of the name.

use vstd::prelude::*;

use crate::trusted::{lower_of, lowercase, new_uuid, now_timestamp, replace_spaces};

verus! {

/// The slug of a name: its lowercase form with every space turned into a
/// hyphen.
pub open spec fn slug_spec(s: Seq<char>) -> Seq<char> {
    lower_of(s).map_values(
        |c: char|
            if c == ' ' {
                '-'
            } else {
                c
            },
    )
}

/// Builds the URL-friendly slug of a display name.
pub fn slugify(name: &str) -> (r: String)
    ensures
        r@ == slug_spec(name@),
{
    let lowered = lowercase(name);
    replace_spaces(lowered.as_str())
}

#[derive(Debug)]
pub struct Vendor {
    pub id: String,
    /// Unix seconds at creation.
    pub created_at: i64,
    /// Unix seconds of the last update.
    pub updated_at: i64,
    pub address: Option<String>,
    pub email: String,
    pub internal_id: Option<String>,
    pub name: String,
    pub phone_country_code: String,
    pub phone_number: String,
    pub slug: String,
    pub type_: String,
}

impl Vendor {
    /// A fresh vendor: a drawn identifier, the clock as both timestamps,
    /// the default country code, and the slug derived from the name.
    pub fn new(
        email: String,
        name: String,
        phone: String,
        type_: String,
        internal_id: Option<String>,
    ) -> (r: Vendor)
        ensures
            r.id@.len() == 36,
            r.created_at == r.updated_at,
            r.address is None,
            r.email == email,
            r.internal_id == internal_id,
            r.name == name,
            r.phone_country_code@ == "+1"@,
            r.phone_number == phone,
            r.slug@ == slug_spec(name@),
            r.type_ == type_,
    {
        let now = now_timestamp();
        let slug = slugify(name.as_str());
        Vendor {
            id: new_uuid(),
            created_at: now,
            updated_at: now,
            address: None,
            email,
            internal_id,
            name,
            phone_country_code: "+1".to_owned(),
            phone_number: phone,
            slug,
            type_,
        }
    }

    /// Applies the given fields; a renamed vendor gets a matching slug, and
    /// the update timestamp moves to the clock.
    pub fn update(
        &mut self,
        email: Option<String>,
        name: Option<String>,
        phone: Option<String>,
        type_: Option<String>,
        internal_id: Option<String>,
    )
        ensures
            final(self).id == old(self).id,
            final(self).created_at == old(self).created_at,
            final(self).address == old(self).address,
            final(self).email == if email is Some {
                email.unwrap()
            } else {
                old(self).email
            },
            final(self).name == if name is Some {
                name.unwrap()
            } else {
                old(self).name
            },
            final(self).slug@ == if name is Some {
                slug_spec(name.unwrap()@)
            } else {
                old(self).slug@
            },
            final(self).phone_number == if phone is Some {
                phone.unwrap()
            } else {
                old(self).phone_number
            },
            final(self).type_ == if type_ is Some {
                type_.unwrap()
            } else {
                old(self).type_
            },
            final(self).internal_id == if internal_id is Some {
                internal_id
            } else {
                old(self).internal_id
            },
            final(self).phone_country_code == old(self).phone_country_code,
    {
        if let Some(email) = email {
            self.email = email;
        }
        if let Some(name) = name {
            self.slug = slugify(name.as_str());
            self.name = name;
        }
        if let Some(phone) = phone {
            self.phone_number = phone;
        }
        if let Some(type_) = type_ {
            self.type_ = type_;
        }
        if let Some(internal_id) = internal_id {
            self.internal_id = Some(internal_id);
        }
        self.updated_at = now_timestamp();
    }
}

/// The first vendor in the list whose id reads `id`.
pub open spec fn find_vendor_spec(s: Seq<Vendor>, id: Seq<char>) -> Option<Vendor>
    decreases s.len(),
{
    if s.len() == 0 {
        None
    } else if s[0].id@ == id {
        Some(s[0])
    } else {
        find_vendor_spec(s.drop_first(), id)
    }
}

/// The in-memory vendor store: an append-ordered list keyed by vendor id,
/// the earliest entry winning on lookup.
#[derive(Debug)]
pub struct VendorManager {
    pub vendors: Vec<Vendor>,
}

impl VendorManager {
    pub fn new() -> (r: Self)
        ensures
            r.vendors@.len() == 0,
    {
        VendorManager { vendors: Vec::new() }
    }

    /// Creates and stores a fresh vendor, returning a borrow of it.
    pub fn create_vendor(
        &mut self,
        email: String,
        name: String,
        phone: String,
        type_: String,
        internal_id: Option<String>,
    ) -> (r: &Vendor)
        ensures
            final(self).vendors@.len() == old(self).vendors@.len() + 1,
            final(self).vendors@.drop_last() == old(self).vendors@,
            *r == final(self).vendors@.last(),
            r.id@.len() == 36,
            r.email == email,
            r.name == name,
            r.phone_number == phone,
            r.type_ == type_,
            r.internal_id == internal_id,
            r.slug@ == slug_spec(name@),
    {
        let vendor = Vendor::new(email, name, phone, type_, internal_id);
        self.vendors.push(vendor);
        let idx = self.vendors.len() - 1;
        &self.vendors[idx]
    }

    /// The first stored vendor with this id, if any.
    pub fn get_vendor(&self, id: &str) -> (r: Option<&Vendor>)
        ensures
            match r {
                Some(v) => find_vendor_spec(self.vendors@, id@) == Some(*v),
                None => find_vendor_spec(self.vendors@, id@) is None,
            },
    {
        let key = id.to_owned();
        let n = self.vendors.len();
        let mut i: usize = 0;
        proof {
            assert(self.vendors@.skip(0) =~= self.vendors@);
        }
        while i < n
            invariant
                n == self.vendors@.len(),
                i <= n,
                key@ == id@,
                find_vendor_spec(self.vendors@.skip(i as int), id@) == find_vendor_spec(
                    self.vendors@,
                    id@,
                ),
            decreases n - i,
        {
            let candidate = &self.vendors[i];
            proof {
                assert(self.vendors@.skip(i as int)[0] == self.vendors@[i as int]);
            }
            if candidate.id == key {
                return Some(candidate);
            }
            proof {
                assert(self.vendors@.skip(i as int).drop_first() =~= self.vendors@.skip(i + 1));
            }
            i = i + 1;
        }
        proof {
            assert(self.vendors@.skip(n as int) =~= Seq::<Vendor>::empty());
        }
        None
    }

    /// Applies the given fields to the first vendor with this id, returning
    /// a borrow of it; nothing when no vendor carries the id.
    pub fn update_vendor(
        &mut self,
        id: &str,
        email: Option<String>,
        name: Option<String>,
        phone: Option<String>,
        type_: Option<String>,
        internal_id: Option<String>,
    ) -> (r: Option<&Vendor>)
        ensures
            r is Some <==> find_vendor_spec(old(self).vendors@, id@) is Some,
            r is None ==> final(self).vendors@ == old(self).vendors@,
            r matches Some(v) ==> {
                &&& final(self).vendors@.len() == old(self).vendors@.len()
                &&& exists|i: int|
                    {
                        &&& 0 <= i < old(self).vendors@.len()
                        &&& old(self).vendors@[i].id@ == id@
                        &&& *v == (#[trigger] final(self).vendors@[i])
                        &&& final(self).vendors@[i].name == if name is Some {
                            name.unwrap()
                        } else {
                            old(self).vendors@[i].name
                        }
                        &&& final(self).vendors@[i].email == if email is Some {
                            email.unwrap()
                        } else {
                            old(self).vendors@[i].email
                        }
                        &&& final(self).vendors@[i].slug@ == if name is Some {
                            slug_spec(name.unwrap()@)
                        } else {
                            old(self).vendors@[i].slug@
                        }
                        &&& final(self).vendors@[i].id == old(self).vendors@[i].id
                        &&& forall|j: int|
                            0 <= j < old(self).vendors@.len() && j != i
                                ==> #[trigger] final(self).vendors@[j] == old(self).vendors@[j]
                    }
            },
    {
        let key = id.to_owned();
        let n = self.vendors.len();
        let mut i: usize = 0;
        proof {
            assert(self.vendors@.skip(0) =~= self.vendors@);
        }
        while i < n
            invariant
                self.vendors@ == old(self).vendors@,
                n == self.vendors@.len(),
                i <= n,
                key@ == id@,
                find_vendor_spec(self.vendors@.skip(i as int), id@) == find_vendor_spec(
                    self.vendors@,
                    id@,
                ),
            decreases n - i,
        {
            proof {
                assert(self.vendors@.skip(i as int)[0] == self.vendors@[i as int]);
            }
            let hit = self.vendors[i].id == key;
            if hit {
                let ghost before = self.vendors@;
                proof {
                    assert(find_vendor_spec(before.skip(i as int), id@) == Some(before[i as int]));
                }
                let mut vendor = self.vendors.remove(i);
                vendor.update(email, name, phone, type_, internal_id);
                let ghost v2 = vendor;
                self.vendors.insert(i, vendor);
                proof {
                    let after = self.vendors@;
                    assert(after[i as int] == v2);
                    assert(after.len() == before.len());
                    assert forall|j: int|
                        0 <= j < before.len() && j != i implies #[trigger] after[j] == before[j] by {
                        if j < i {
                            assert(after[j] == before.remove(i as int)[j]);
                        } else {
                            assert(after[j] == before.remove(i as int)[j - 1]);
                        }
                    };
                    assert({
                        &&& 0 <= i < before.len()
                        &&& before[i as int].id@ == id@
                        &&& (#[trigger] after[i as int]).name == if name is Some {
                            name.unwrap()
                        } else {
                            before[i as int].name
                        }
                        &&& after[i as int].email == if email is Some {
                            email.unwrap()
                        } else {
                            before[i as int].email
                        }
                        &&& after[i as int].slug@ == if name is Some {
                            slug_spec(name.unwrap()@)
                        } else {
                            before[i as int].slug@
                        }
                        &&& after[i as int].id == before[i as int].id
                        &&& forall|j: int|
                            0 <= j < before.len() && j != i ==> #[trigger] after[j] == before[j]
                    });
                }
                let idx = i;
                return Some(&self.vendors[idx]);
            }
            proof {
                assert(self.vendors@.skip(i as int).drop_first() =~= self.vendors@.skip(i + 1));
            }
            i = i + 1;
        }
        proof {
            assert(self.vendors@.skip(n as int) =~= Seq::<Vendor>::empty());
        }
        None
    }

    /// Removes and returns the first vendor with this id, if any.
    pub fn delete_vendor(&mut self, id: &str) -> (r: Option<Vendor>)
        ensures
            match r {
                Some(v) => {
                    &&& find_vendor_spec(old(self).vendors@, id@) == Some(v)
                    &&& exists|i: int|
                        {
                            &&& 0 <= i < old(self).vendors@.len()
                            &&& old(self).vendors@[i] == v
                            &&& final(self).vendors@ == old(self).vendors@.remove(i)
                        }
                },
                None => {
                    &&& find_vendor_spec(old(self).vendors@, id@) is None
                    &&& final(self).vendors@ == old(self).vendors@
                },
            },
    {
        let key = id.to_owned();
        let n = self.vendors.len();
        let mut i: usize = 0;
        proof {
            assert(self.vendors@.skip(0) =~= self.vendors@);
        }
        while i < n
            invariant
                self.vendors@ == old(self).vendors@,
                n == self.vendors@.len(),
                i <= n,
                key@ == id@,
                find_vendor_spec(self.vendors@.skip(i as int), id@) == find_vendor_spec(
                    self.vendors@,
                    id@,
                ),
            decreases n - i,
        {
            proof {
                assert(self.vendors@.skip(i as int)[0] == self.vendors@[i as int]);
            }
            let hit = self.vendors[i].id == key;
            if hit {
                let ghost before = self.vendors@;
                proof {
                    assert(find_vendor_spec(before.skip(i as int), id@) == Some(before[i as int]));
                }
                let vendor = self.vendors.remove(i);
                proof {
                    assert({
                        &&& 0 <= i < before.len()
                        &&& before[i as int] == vendor
                        &&& self.vendors@ == before.remove(i as int)
                    });
                }
                return Some(vendor);
            }
            proof {
                assert(self.vendors@.skip(i as int).drop_first() =~= self.vendors@.skip(i + 1));
            }
            i = i + 1;
        }
        proof {
            assert(self.vendors@.skip(n as int) =~= Seq::<Vendor>::empty());
        }
        None
    }

    /// Every stored vendor, in insertion order.
    pub fn list_vendors(&self) -> (r: &[Vendor])
        ensures
            r@ == self.vendors@,
    {
        self.vendors.as_slice()
    }
}

} // verus!
