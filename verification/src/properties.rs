//! Seeding of the property catalog: the fixed test properties and
//! their answer-key prices.

use vstd::prelude::*;

use crate::pallet::{Pallet, MAX_PROPERTY};
use crate::types::PropertyInfoData;
use vstd::string::StrSliceExecFns;

verus! {

impl Pallet {
    /// Ids of the seeded properties, in catalog order.  The third id
    /// appears twice: the seed data carries a duplicate record.
    pub open spec fn seed_property_id(k: int) -> u32 {
        if k == 0 {
            147229391u32
        } else if k == 1 {
            146480642u32
        } else {
            147031382u32
        }
    }

    /// Prices of the seeded properties, keyed like
    /// [`Pallet::seed_property_id`].
    pub open spec fn seed_property_price(k: int) -> u32 {
        if k == 0 {
            220000u32
        } else if k == 1 {
            650000u32
        } else {
            525000u32
        }
    }

    /// Appends the four seeded properties to the catalog and records
    /// their prices.
    pub(crate) fn create_test_properties(&mut self)
        requires
            old(self).wf(),
            old(self).test_properties@.len() + 4 <= MAX_PROPERTY,
        ensures
            final(self).wf(),
            final(self).test_properties@.len() == old(self).test_properties@.len() + 4,
            forall|j: int|
                0 <= j < old(self).test_properties@.len() ==> final(self).test_properties@[j] == old(
                    self,
                ).test_properties@[j],
            final(self).test_properties@[old(self).test_properties@.len() + 0int].id
                == Pallet::seed_property_id(0),
            final(self).test_properties@[old(self).test_properties@.len() + 1int].id
                == Pallet::seed_property_id(1),
            final(self).test_properties@[old(self).test_properties@.len() + 2int].id
                == Pallet::seed_property_id(2),
            final(self).test_properties@[old(self).test_properties@.len() + 3int].id
                == Pallet::seed_property_id(2),
            final(self).test_prices@ == old(self).test_prices@.insert(147229391u64, 220000u32).insert(
                146480642u64,
                650000u32,
            ).insert(147031382u64, 525000u32),
            *final(self) == (Pallet {
                test_properties: final(self).test_properties,
                test_prices: final(self).test_prices,
                ..*old(self)
            }),
    {
        let p0 = PropertyInfoData {
            id: 147229391,
            bedrooms: 2,
            bathrooms: 1,
            summary: "Superb 2 double bedroom ground floor purpose-built apartment with sole use of garden. Directly opposite Hackney Downs Park, within walking distance of Clapton, Hackney Downs & Rectory Rd Stations. Benefitting from; 2 double bedrooms, fitted kitchen/diner, modern shower/WC, separate lounge with di...".as_bytes_vec(),
            property_sub_type: "Flat".as_bytes_vec(),
            first_visible_date: "2024-04-24T16:39:27Z".as_bytes_vec(),
            display_size: "".as_bytes_vec(),
            display_address: "St Peters Street, Islington".as_bytes_vec(),
            property_images1: "https://media.rightmove.co.uk/dir/crop/10:9-16:9/56k/55489/146480642/55489_2291824_IMG_00_0000_max_476x317.jpeg".as_bytes_vec(),
        };
        self.test_properties.push(p0);
        self.test_prices.insert(147229391u64, 220000);
        let p1 = PropertyInfoData {
            id: 146480642,
            bedrooms: 2,
            bathrooms: 1,
            summary: "Exceptional, bright and spacious 915 sq ft period upper maisonette for sale with a balcony and 22'2 rear patio garden, presented in good condition and available chain free.".as_bytes_vec(),
            property_sub_type: "Flat".as_bytes_vec(),
            first_visible_date: "2024-04-24T16:39:27Z".as_bytes_vec(),
            display_size: "".as_bytes_vec(),
            display_address: "Aragon Tower, London, SE8".as_bytes_vec(),
            property_images1: "https://media.rightmove.co.uk/dir/crop/10:9-16:9/128k/127876/147229391/127876_33052394_IMG_12_0000_max_476x317.gif".as_bytes_vec(),
        };
        self.test_properties.push(p1);
        self.test_prices.insert(146480642u64, 650000);
        let p2 = PropertyInfoData {
            id: 147031382,
            bedrooms: 3,
            bathrooms: 2,
            summary: "Exceptional, bright and spacious 915 sq ft period upper maisonette for sale with a balcony and 22'2 rear patio garden, presented in good condition and available chain free.".as_bytes_vec(),
            property_sub_type: "Flat".as_bytes_vec(),
            first_visible_date: "2024-04-24T16:39:27Z".as_bytes_vec(),
            display_size: "".as_bytes_vec(),
            display_address: "Aragon Tower, London, SE8".as_bytes_vec(),
            property_images1: "https://media.rightmove.co.uk/dir/crop/10:9-16:9/128k/127876/147229391/127876_33052394_IMG_12_0000_max_476x317.gif".as_bytes_vec(),
        };
        self.test_properties.push(p2);
        self.test_prices.insert(147031382u64, 525000);
        let p3 = PropertyInfoData {
            id: 147031382,
            bedrooms: 3,
            bathrooms: 2,
            summary: "Exceptional, bright and spacious 915 sq ft period upper maisonette for sale with a balcony and 22'2 rear patio garden, presented in good condition and available chain free.".as_bytes_vec(),
            property_sub_type: "Flat".as_bytes_vec(),
            first_visible_date: "2024-04-24T16:39:27Z".as_bytes_vec(),
            display_size: "".as_bytes_vec(),
            display_address: "Aragon Tower, London, SE8".as_bytes_vec(),
            property_images1: "https://media.rightmove.co.uk/dir/crop/10:9-16:9/128k/127876/147229391/127876_33052394_IMG_12_0000_max_476x317.gif".as_bytes_vec(),
        };
        self.test_properties.push(p3);
        self.test_prices.insert(147031382u64, 525000);
        proof {
            assert(self.test_prices@ =~= old(self).test_prices@.insert(
                147229391u64,
                220000u32,
            ).insert(146480642u64, 650000u32).insert(147031382u64, 525000u32));
        }
    }
}

} // verus!
