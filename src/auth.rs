use vstd::prelude::*;

verus! {

/// A public credential, held as its encoded bytes. Two credentials are the
/// same exactly when their encodings are.
pub struct Credential {
    pub blob: Vec<u8>,
}

impl View for Credential {
    type V = Seq<u8>;

    open spec fn view(&self) -> Seq<u8> {
        self.blob@
    }
}

/// A user and the credentials authorized for it.
pub struct UserKeys {
    pub name: String,
    pub keys: Vec<Credential>,
}

impl UserKeys {
    /// The encodings of the authorized credentials.
    pub open spec fn key_views(self) -> Seq<Seq<u8>> {
        self.keys@.map_values(|k: Credential| k@)
    }
}

/// No two entries of the table share a name.
pub open spec fn distinct_names(users: Seq<UserKeys>) -> bool {
    forall|i: int, j: int|
        0 <= i < users.len() && 0 <= j < users.len() && i != j ==> users[i].name@
            != users[j].name@
}

/// `name` is known and `key` matches one of its authorized credentials
/// exactly.
pub open spec fn accepts(users: Seq<UserKeys>, name: Seq<char>, key: Seq<u8>) -> bool {
    exists|i: int| 0 <= i < users.len() && users[i].name@ == name && users[i].key_views().contains(key)
}

impl Credential {
    pub fn new(blob: Vec<u8>) -> (r: Self)
        ensures
            r@ == blob@,
    {
        Credential { blob }
    }

    /// Byte-for-byte equality of the encodings.
    pub fn same(&self, other: &Credential) -> (r: bool)
        ensures
            r == (self@ == other@),
    {
        if self.blob.len() != other.blob.len() {
            return false;
        }
        let mut i: usize = 0;
        while i < self.blob.len()
            invariant
                self.blob.len() == other.blob.len(),
                0 <= i <= self.blob.len(),
                forall|j: int| 0 <= j < i ==> self.blob@[j] == other.blob@[j],
            decreases self.blob.len() - i,
        {
            if self.blob[i] != other.blob[i] {
                return false;
            }
            i = i + 1;
        }
        proof {
            assert(self@ =~= other@);
        }
        true
    }
}

impl UserKeys {
    pub fn new(name: String, keys: Vec<Credential>) -> (r: Self)
        ensures
            r.name == name,
            r.keys == keys,
    {
        UserKeys { name, keys }
    }

    /// Whether `key` is one of the authorized credentials.
    pub fn authorizes(&self, key: &Credential) -> (r: bool)
        ensures
            r == self.key_views().contains(key@),
    {
        let mut i: usize = 0;
        while i < self.keys.len()
            invariant
                0 <= i <= self.keys.len(),
                forall|j: int| 0 <= j < i ==> self.keys@[j]@ != key@,
            decreases self.keys.len() - i,
        {
            if self.keys[i].same(key) {
                proof {
                    assert(self.key_views()[i as int] == key@);
                }
                return true;
            }
            i = i + 1;
        }
        proof {
            if self.key_views().contains(key@) {
                let j = choose|j: int| 0 <= j < self.key_views().len() && self.key_views()[j] == key@;
                assert(self.keys@[j]@ == key@);
            }
        }
        false
    }
}

/// The position of the entry named `name`, if any.
pub fn find_user(users: &Vec<UserKeys>, name: &str) -> (r: Option<usize>)
    ensures
        match r {
            Some(i) => i < users@.len() && users@[i as int].name@ == name@,
            None => forall|j: int| 0 <= j < users@.len() ==> users@[j].name@ != name@,
        },
{
    let wanted = name.to_owned();
    let mut i: usize = 0;
    while i < users.len()
        invariant
            0 <= i <= users@.len(),
            wanted@ == name@,
            forall|j: int| 0 <= j < i ==> users@[j].name@ != name@,
        decreases users.len() - i,
    {
        if users[i].name == wanted {
            return Some(i);
        }
        i = i + 1;
    }
    None
}

/// Whether `name` is a known user and `key` exactly matches one of its
/// authorized credentials. An unknown name is simply rejected.
pub fn check(users: &Vec<UserKeys>, name: &str, key: &Credential) -> (r: bool)
    requires
        distinct_names(users@),
    ensures
        r == accepts(users@, name@, key@),
{
    match find_user(users, name) {
        Some(i) => {
            let ok = users[i].authorizes(key);
            proof {
                if accepts(users@, name@, key@) {
                    let j = choose|j: int|
                        0 <= j < users@.len() && users@[j].name@ == name@
                            && users@[j].key_views().contains(key@);
                    assert(j == i as int);
                }
            }
            ok
        },
        None => false,
    }
}

} // verus!
