//! The game server's character storage: stored characters and the accounts
//! that own them. The stored set is a fixed table.
use vstd::prelude::*;
use crate::protocol::{Coords, CoordsView};
use crate::rqode_binrw::{BodyParam, F32};

verus! {

/// A stored character.
#[derive(Clone, Debug)]
pub struct Character {
    pub id: u32,
    pub sex: bool,
    pub body: BodyParam,
    pub class: u16,
    pub name: String,
    pub level: u16,
    /// Position in the location (two floats, by their bits).
    pub pos: Coords,
    pub location: u32,
}

/// Mathematical form of [`Character`].
pub struct CharacterView {
    pub id: u32,
    pub sex: bool,
    pub body: BodyParam,
    pub class: u16,
    pub name: Seq<char>,
    pub level: u16,
    pub pos: CoordsView,
    pub location: u32,
}

impl View for Character {
    type V = CharacterView;

    open spec fn view(&self) -> CharacterView {
        CharacterView {
            id: self.id,
            sex: self.sex,
            body: self.body,
            class: self.class,
            name: self.name@,
            level: self.level,
            pos: self.pos@,
            location: self.location,
        }
    }
}

/// Hit points and energy of a character.
#[derive(Clone, Copy, Debug, PartialEq, Eq, Structural)]
pub struct Stats {
    pub current_hp: u32,
    pub max_hp: u32,
    pub current_energy: u32,
    pub max_energy: u32,
}

/// A character with its stats.
#[derive(Clone, Debug)]
pub struct CharacterBundle {
    pub char: Character,
    pub stats: Stats,
}

/// Mathematical form of [`CharacterBundle`].
pub struct CharacterBundleView {
    pub char: CharacterView,
    pub stats: Stats,
}

impl View for CharacterBundle {
    type V = CharacterBundleView;

    open spec fn view(&self) -> CharacterBundleView {
        CharacterBundleView { char: self.char@, stats: self.stats }
    }
}

/// Errors of a character store.
#[derive(Clone, Copy, Debug, PartialEq, Eq, Structural)]
pub enum DbError {
    /// The store could not be reached.
    Unavailable,
}

/// Reading characters and the character lists of accounts.
pub trait Database {
    /// The character with this id, if it exists.
    fn read_character(&self, id: u32) -> Result<Option<CharacterBundle>, DbError>;

    /// The ids of an account's characters, if the account exists.
    fn get_characters(&self, account_id: &str) -> Result<Option<Vec<u32>>, DbError>;
}

/// The appearance with every part zero.
pub open spec fn default_body() -> BodyParam {
    BodyParam { haircolor: 0, unk1: 0, skin: 0, unk3: 0, unk4: 0, face: 0, unk6: 0, unk7: 0 }
}

/// A stored character as the fixed table describes it: at the origin of
/// location 25565, class 1, full stats of 100.
pub open spec fn table_character(id: u32, name: Seq<char>, level: u16) -> CharacterBundleView {
    CharacterBundleView {
        char: CharacterView {
            id,
            sex: false,
            body: default_body(),
            class: 1,
            name,
            level,
            pos: CoordsView { x: F32(0), y: F32(0) },
            location: 25565,
        },
        stats: Stats { current_hp: 100, max_hp: 100, current_energy: 100, max_energy: 100 },
    }
}

/// The characters of the fixed table: 34 "Lambda" (level 34), 6 "Nik"
/// (level 39), 19 "Sam" (level 19).
pub open spec fn mock_character(id: u32) -> Option<CharacterBundleView> {
    if id == 34 {
        Some(table_character(id, "Lambda"@, 34))
    } else if id == 6 {
        Some(table_character(id, "Nik"@, 39))
    } else if id == 19 {
        Some(table_character(id, "Sam"@, 19))
    } else {
        None
    }
}

/// The accounts of the fixed table: "nik" owns 6, "lev" owns 34, "sam"
/// owns 19.
pub open spec fn mock_account(account: Seq<char>) -> Option<Seq<u32>> {
    if account == "nik"@ {
        Some(seq![6u32])
    } else if account == "lev"@ {
        Some(seq![34u32])
    } else if account == "sam"@ {
        Some(seq![19u32])
    } else {
        None
    }
}

/// Whether two strings hold the same characters.
pub fn str_eq(a: &str, b: &str) -> (r: bool)
    ensures
        r == (a@ == b@),
{
    let n = a.unicode_len();
    if n != b.unicode_len() {
        return false;
    }
    let mut k: usize = 0;
    while k < n
        invariant
            k <= n,
            n == a@.len(),
            n == b@.len(),
            forall|m: int| 0 <= m < k ==> a@[m] == b@[m],
        decreases n - k,
    {
        if a.get_char(k) != b.get_char(k) {
            return false;
        }
        k = k + 1;
    }
    assert(a@ =~= b@);
    true
}

/// The character store with a fixed table of characters and accounts.
#[derive(Clone, Copy, Debug)]
pub struct MockDatabase;

fn stored(id: u32, name: &str, level: u16) -> (r: CharacterBundle)
    ensures
        r@ == table_character(id, name@, level),
{
    CharacterBundle {
        char: Character {
            id,
            sex: false,
            body: BodyParam { haircolor: 0, unk1: 0, skin: 0, unk3: 0, unk4: 0, face: 0, unk6: 0, unk7: 0 },
            class: 1,
            name: String::from_str(name),
            level,
            pos: Coords { x: F32(0), y: F32(0) },
            location: 25565,
        },
        stats: Stats { current_hp: 100, max_hp: 100, current_energy: 100, max_energy: 100 },
    }
}

impl Database for MockDatabase {
    fn read_character(&self, id: u32) -> (r: Result<Option<CharacterBundle>, DbError>)
        ensures
            r matches Ok(o) && match mock_character(id) {
                Some(c) => o matches Some(b) && b@ == c,
                None => o is None,
            },
    {
        proof {
            reveal_strlit("Lambda");
            reveal_strlit("Nik");
            reveal_strlit("Sam");
        }
        if id == 34 {
            Ok(Some(stored(id, "Lambda", 34)))
        } else if id == 6 {
            Ok(Some(stored(id, "Nik", 39)))
        } else if id == 19 {
            Ok(Some(stored(id, "Sam", 19)))
        } else {
            Ok(None)
        }
    }

    fn get_characters(&self, account_id: &str) -> (r: Result<Option<Vec<u32>>, DbError>)
        ensures
            r matches Ok(o) && match mock_account(account_id@) {
                Some(ids) => o matches Some(v) && v@ == ids,
                None => o is None,
            },
    {
        proof {
            reveal_strlit("nik");
            reveal_strlit("lev");
            reveal_strlit("sam");
        }
        let mut v: Vec<u32> = Vec::new();
        if str_eq(account_id, "nik") {
            v.push(6);
        } else if str_eq(account_id, "lev") {
            v.push(34);
        } else if str_eq(account_id, "sam") {
            v.push(19);
        } else {
            return Ok(None);
        }
        assert(v@ =~= mock_account(account_id@).unwrap());
        Ok(Some(v))
    }
}

} // verus!
