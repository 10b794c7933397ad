//! Deterministic, pre-funded development accounts.
use vstd::prelude::*;
use crate::backend::{AccountModel, InMemoryDB, db_accounts, insert_funded, new_db};
use crate::error::{Error, error_message};
use crate::types::Address;

verus! {

/// The well-known development addresses of local Ethereum nodes, as checksummed hex.
pub const DEV_ACCOUNTS: [&'static str; 10] = [
    "0xf39Fd6e51aad88F6F4ce6aB8827279cffFb92266",
    "0x70997970C51812dc3A010C7d01b50e0d17dc79C8",
    "0x3C44CdDdB6a900fa2b585dd299e03d12fa4293BC",
    "0x90F79bf6EB2c4f870365E785982E1f101E93b906",
    "0x15d34AAf54267DB7D7c367839AAF71A00a2C6A65",
    "0x9965507D1a55bcC2695C58ba16FB37d819B0A4dc",
    "0x976EA74026E726554dB657fA54763abd0C3a0aa9",
    "0x14dC79964da2C08b23698B3D3cc7Ca32193d9955",
    "0x23618e81E3f5cdF7f54C3d65f7FBc0aBf5B21E8f",
    "0xa0Ee7A142d267C1f36714E4a8F75612F20a79720",
];

/// Number of development accounts.
pub const DEV_ACCOUNT_COUNT: usize = 10;

/// Balance given to every dev account: ten thousand ether, in wei.
pub const DEV_BALANCE: u128 = 10_000_000_000_000_000_000_000u128;

/// The bytes of the development address at `i` (for `0 <= i < 10`), the same
/// addresses as `DEV_ACCOUNTS` spells out.
pub open spec fn dev_address(i: int) -> Seq<u8> {
    if i == 0 {
        seq![0xf3, 0x9f, 0xd6, 0xe5, 0x1a, 0xad, 0x88, 0xf6, 0xf4, 0xce, 0x6a, 0xb8, 0x82, 0x72, 0x79, 0xcf, 0xff, 0xb9, 0x22, 0x66]
    } else if i == 1 {
        seq![0x70, 0x99, 0x79, 0x70, 0xc5, 0x18, 0x12, 0xdc, 0x3a, 0x01, 0x0c, 0x7d, 0x01, 0xb5, 0x0e, 0x0d, 0x17, 0xdc, 0x79, 0xc8]
    } else if i == 2 {
        seq![0x3c, 0x44, 0xcd, 0xdd, 0xb6, 0xa9, 0x00, 0xfa, 0x2b, 0x58, 0x5d, 0xd2, 0x99, 0xe0, 0x3d, 0x12, 0xfa, 0x42, 0x93, 0xbc]
    } else if i == 3 {
        seq![0x90, 0xf7, 0x9b, 0xf6, 0xeb, 0x2c, 0x4f, 0x87, 0x03, 0x65, 0xe7, 0x85, 0x98, 0x2e, 0x1f, 0x10, 0x1e, 0x93, 0xb9, 0x06]
    } else if i == 4 {
        seq![0x15, 0xd3, 0x4a, 0xaf, 0x54, 0x26, 0x7d, 0xb7, 0xd7, 0xc3, 0x67, 0x83, 0x9a, 0xaf, 0x71, 0xa0, 0x0a, 0x2c, 0x6a, 0x65]
    } else if i == 5 {
        seq![0x99, 0x65, 0x50, 0x7d, 0x1a, 0x55, 0xbc, 0xc2, 0x69, 0x5c, 0x58, 0xba, 0x16, 0xfb, 0x37, 0xd8, 0x19, 0xb0, 0xa4, 0xdc]
    } else if i == 6 {
        seq![0x97, 0x6e, 0xa7, 0x40, 0x26, 0xe7, 0x26, 0x55, 0x4d, 0xb6, 0x57, 0xfa, 0x54, 0x76, 0x3a, 0xbd, 0x0c, 0x3a, 0x0a, 0xa9]
    } else if i == 7 {
        seq![0x14, 0xdc, 0x79, 0x96, 0x4d, 0xa2, 0xc0, 0x8b, 0x23, 0x69, 0x8b, 0x3d, 0x3c, 0xc7, 0xca, 0x32, 0x19, 0x3d, 0x99, 0x55]
    } else if i == 8 {
        seq![0x23, 0x61, 0x8e, 0x81, 0xe3, 0xf5, 0xcd, 0xf7, 0xf5, 0x4c, 0x3d, 0x65, 0xf7, 0xfb, 0xc0, 0xab, 0xf5, 0xb2, 0x1e, 0x8f]
    } else {
        seq![0xa0, 0xee, 0x7a, 0x14, 0x2d, 0x26, 0x7c, 0x1f, 0x36, 0x71, 0x4e, 0x4a, 0x8f, 0x75, 0x61, 0x2f, 0x20, 0xa7, 0x97, 0x20]
    }
}

/// The accounts that provisioning creates: each dev address with the dev balance, nonce 0
/// and no code.
pub open spec fn dev_accounts_model() -> Map<Seq<u8>, AccountModel> {
    Map::new(
        |a: Seq<u8>| exists|i: int| 0 <= i < 10 && dev_address(i) == a,
        |a: Seq<u8>| (DEV_BALANCE as nat, 0nat, true),
    )
}

fn dev_address_bytes(index: usize) -> (r: [u8; 20])
    requires
        index < 10,
    ensures
        r@ == dev_address(index as int),
{
    if index == 0 {
        [0xf3, 0x9f, 0xd6, 0xe5, 0x1a, 0xad, 0x88, 0xf6, 0xf4, 0xce, 0x6a, 0xb8, 0x82, 0x72, 0x79, 0xcf, 0xff, 0xb9, 0x22, 0x66]
    } else if index == 1 {
        [0x70, 0x99, 0x79, 0x70, 0xc5, 0x18, 0x12, 0xdc, 0x3a, 0x01, 0x0c, 0x7d, 0x01, 0xb5, 0x0e, 0x0d, 0x17, 0xdc, 0x79, 0xc8]
    } else if index == 2 {
        [0x3c, 0x44, 0xcd, 0xdd, 0xb6, 0xa9, 0x00, 0xfa, 0x2b, 0x58, 0x5d, 0xd2, 0x99, 0xe0, 0x3d, 0x12, 0xfa, 0x42, 0x93, 0xbc]
    } else if index == 3 {
        [0x90, 0xf7, 0x9b, 0xf6, 0xeb, 0x2c, 0x4f, 0x87, 0x03, 0x65, 0xe7, 0x85, 0x98, 0x2e, 0x1f, 0x10, 0x1e, 0x93, 0xb9, 0x06]
    } else if index == 4 {
        [0x15, 0xd3, 0x4a, 0xaf, 0x54, 0x26, 0x7d, 0xb7, 0xd7, 0xc3, 0x67, 0x83, 0x9a, 0xaf, 0x71, 0xa0, 0x0a, 0x2c, 0x6a, 0x65]
    } else if index == 5 {
        [0x99, 0x65, 0x50, 0x7d, 0x1a, 0x55, 0xbc, 0xc2, 0x69, 0x5c, 0x58, 0xba, 0x16, 0xfb, 0x37, 0xd8, 0x19, 0xb0, 0xa4, 0xdc]
    } else if index == 6 {
        [0x97, 0x6e, 0xa7, 0x40, 0x26, 0xe7, 0x26, 0x55, 0x4d, 0xb6, 0x57, 0xfa, 0x54, 0x76, 0x3a, 0xbd, 0x0c, 0x3a, 0x0a, 0xa9]
    } else if index == 7 {
        [0x14, 0xdc, 0x79, 0x96, 0x4d, 0xa2, 0xc0, 0x8b, 0x23, 0x69, 0x8b, 0x3d, 0x3c, 0xc7, 0xca, 0x32, 0x19, 0x3d, 0x99, 0x55]
    } else if index == 8 {
        [0x23, 0x61, 0x8e, 0x81, 0xe3, 0xf5, 0xcd, 0xf7, 0xf5, 0x4c, 0x3d, 0x65, 0xf7, 0xfb, 0xc0, 0xab, 0xf5, 0xb2, 0x1e, 0x8f]
    } else {
        [0xa0, 0xee, 0x7a, 0x14, 0x2d, 0x26, 0x7c, 0x1f, 0x36, 0x71, 0x4e, 0x4a, 0x8f, 0x75, 0x61, 0x2f, 0x20, 0xa7, 0x97, 0x20]
    }
}

/// The development address at `index`, or an error when `index` is not below 10.
pub fn dev_account_at(index: usize) -> (r: Result<Address, Error>)
    ensures
        index < 10 ==> (r matches Ok(a) && a.bytes@ == dev_address(index as int)),
        index >= 10 ==> (r matches Err(e) && e is Generic && error_message(e)
            == "Dev account index out of bounds"@),
{
    if index < DEV_ACCOUNT_COUNT {
        Ok(Address { bytes: dev_address_bytes(index) })
    } else {
        Err(Error::Generic(String::from_str("Dev account index out of bounds")))
    }
}

/// The first development address, the default sender.
pub fn dev_account() -> (r: Address)
    ensures
        r.bytes@ == dev_address(0),
{
    Address { bytes: dev_address_bytes(0) }
}

/// A fresh database holding exactly the ten development accounts, each with
/// `DEV_BALANCE`, nonce 0 and no code. Nothing outside the new database is read or written,
/// so every call gives the same accounts.
pub fn create_dev_db() -> (r: InMemoryDB)
    ensures
        db_accounts(r) == dev_accounts_model(),
{
    let mut db = new_db();
    let mut i: usize = 0;
    while i < DEV_ACCOUNT_COUNT
        invariant
            i <= 10,
            db_accounts(db) == Map::new(
                |a: Seq<u8>| exists|j: int| 0 <= j < i && dev_address(j) == a,
                |a: Seq<u8>| (DEV_BALANCE as nat, 0nat, true),
            ),
        decreases 10 - i,
    {
        let address = Address { bytes: dev_address_bytes(i) };
        insert_funded(&mut db, address, DEV_BALANCE);
        proof {
            let m = Map::new(
                |a: Seq<u8>| exists|j: int| 0 <= j < i + 1 && dev_address(j) == a,
                |a: Seq<u8>| (DEV_BALANCE as nat, 0nat, true),
            );
            assert forall|a: Seq<u8>| #[trigger] m.contains_key(a) implies db_accounts(db).contains_key(a) by {
                let j = choose|j: int| 0 <= j < i + 1 && dev_address(j) == a;
                if j < i {
                    assert(0 <= j < i && dev_address(j) == a);
                }
            }
            assert(db_accounts(db) =~= m);
        }
        i = i + 1;
    }
    db
}

} // verus!
