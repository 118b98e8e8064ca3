//! What Redis does with the commands that the cache sends, as far as the cache relies on it.
use vstd::prelude::*;

use crate::text::{lemma_utf8_injective, utf8};

verus! {

/// What Redis holds under a key.
pub enum Kept {
    /// A single value.
    Value(Seq<u8>),
    /// A list of values.
    Items(Seq<Seq<u8>>),
    /// A set of members.
    Members(Set<Seq<u8>>),
    /// A hash of fields.
    Fields(Map<Seq<u8>, Seq<u8>>),
}

/// The list under a key, empty where there is nothing, if nothing but a list stands there.
pub open spec fn items_at(db: Map<Seq<u8>, Kept>, key: Seq<u8>) -> Option<Seq<Seq<u8>>> {
    if db.contains_key(key) {
        match db[key] {
            Kept::Items(items) => Some(items),
            _ => None,
        }
    } else {
        Some(Seq::empty())
    }
}

/// The set under a key, empty where there is nothing, if nothing but a set stands there.
pub open spec fn members_at(db: Map<Seq<u8>, Kept>, key: Seq<u8>) -> Option<Set<Seq<u8>>> {
    if db.contains_key(key) {
        match db[key] {
            Kept::Members(members) => Some(members),
            _ => None,
        }
    } else {
        Some(Set::empty())
    }
}

/// The hash under a key, empty where there is nothing, if nothing but a hash stands there.
pub open spec fn fields_at(db: Map<Seq<u8>, Kept>, key: Seq<u8>) -> Option<
    Map<Seq<u8>, Seq<u8>>,
> {
    if db.contains_key(key) {
        match db[key] {
            Kept::Fields(fields) => Some(fields),
            _ => None,
        }
    } else {
        Some(Map::empty())
    }
}

/// What Redis holds after a command that writes, or nothing where it refuses the command.
pub open spec fn execute(db: Map<Seq<u8>, Kept>, args: Seq<Seq<u8>>) -> Option<
    Map<Seq<u8>, Kept>,
> {
    let name = args[0];
    let key = args[1];
    if args.len() == 2 {
        if name == utf8("DEL"@) {
            Some(db.remove(key))
        } else {
            None
        }
    } else if args.len() == 3 {
        if name == utf8("SET"@) {
            Some(db.insert(key, Kept::Value(args[2])))
        } else if name == utf8("RPUSH"@) {
            match items_at(db, key) {
                Some(items) => Some(db.insert(key, Kept::Items(items.push(args[2])))),
                None => None,
            }
        } else if name == utf8("RPUSHX"@) {
            match items_at(db, key) {
                Some(items) => if db.contains_key(key) {
                    Some(db.insert(key, Kept::Items(items.push(args[2]))))
                } else {
                    Some(db)
                },
                None => None,
            }
        } else if name == utf8("SADD"@) {
            match members_at(db, key) {
                Some(members) => Some(db.insert(key, Kept::Members(members.insert(args[2])))),
                None => None,
            }
        } else if name == utf8("SREM"@) {
            match members_at(db, key) {
                Some(members) => if members.remove(args[2]) == Set::<Seq<u8>>::empty() {
                    Some(db.remove(key))
                } else {
                    Some(db.insert(key, Kept::Members(members.remove(args[2]))))
                },
                None => None,
            }
        } else {
            None
        }
    } else if args.len() == 4 && name == utf8("HSET"@) {
        match fields_at(db, key) {
            Some(fields) => Some(db.insert(key, Kept::Fields(fields.insert(args[2], args[3])))),
            None => None,
        }
    } else {
        None
    }
}

/// What Redis holds after commands that write, or nothing where it refuses one of them.
pub open spec fn execute_all(db: Map<Seq<u8>, Kept>, commands: Seq<Seq<Seq<u8>>>) -> Option<
    Map<Seq<u8>, Kept>,
>
    decreases commands.len(),
{
    if commands.len() == 0 {
        Some(db)
    } else {
        match execute_all(db, commands.drop_last()) {
            Some(after) => execute(after, commands.last()),
            None => None,
        }
    }
}

/// What Redis gives for a command that reads: the single value, empty where there is none, all
/// values of a list, all members of a set or all fields of a hash, and nothing where it refuses the
/// command.
pub open spec fn reply(db: Map<Seq<u8>, Kept>, args: Seq<Seq<u8>>) -> Option<Kept> {
    let name = args[0];
    let key = args[1];
    if args.len() == 2 && name == utf8("GET"@) {
        if db.contains_key(key) {
            match db[key] {
                Kept::Value(value) => Some(Kept::Value(value)),
                _ => None,
            }
        } else {
            Some(Kept::Value(Seq::empty()))
        }
    } else if args.len() == 4 && name == utf8("LRANGE"@) && args[2] == utf8("0"@) && args[3]
        == utf8("-1"@) {
        match items_at(db, key) {
            Some(items) => Some(Kept::Items(items)),
            None => None,
        }
    } else if args.len() == 2 && name == utf8("SMEMBERS"@) {
        match members_at(db, key) {
            Some(members) => Some(Kept::Members(members)),
            None => None,
        }
    } else if args.len() == 2 && name == utf8("HGETALL"@) {
        match fields_at(db, key) {
            Some(fields) => Some(Kept::Fields(fields)),
            None => None,
        }
    } else {
        None
    }
}

/// A single command.
pub proof fn lemma_execute_one(db: Map<Seq<u8>, Kept>, args: Seq<Seq<u8>>)
    ensures
        execute_all(db, seq![args]) == execute(db, args),
        execute_all(db, Seq::empty()) == Some(db),
{
    let commands = seq![args];
    assert(commands.drop_last() =~= Seq::<Seq<Seq<u8>>>::empty());
    reveal_with_fuel(execute_all, 2);
}

/// Different names have different bytes.
proof fn lemma_names_differ(a: Seq<char>, b: Seq<char>)
    requires
        a != b,
    ensures
        utf8(a) != utf8(b),
{
    if utf8(a) == utf8(b) {
        lemma_utf8_injective(a, b);
    }
}

/// The names of the commands are different from each other, as far as commands of one length can
/// be mistaken for each other.
pub proof fn lemma_command_names()
    ensures
        utf8("SET"@) != utf8("RPUSH"@),
        utf8("SET"@) != utf8("RPUSHX"@),
        utf8("SET"@) != utf8("SADD"@),
        utf8("SET"@) != utf8("SREM"@),
        utf8("RPUSH"@) != utf8("RPUSHX"@),
        utf8("RPUSH"@) != utf8("SADD"@),
        utf8("RPUSH"@) != utf8("SREM"@),
        utf8("RPUSHX"@) != utf8("SADD"@),
        utf8("RPUSHX"@) != utf8("SREM"@),
        utf8("SADD"@) != utf8("SREM"@),
        utf8("GET"@) != utf8("SMEMBERS"@),
        utf8("GET"@) != utf8("HGETALL"@),
        utf8("SMEMBERS"@) != utf8("HGETALL"@),
{
    reveal_strlit("SET");
    reveal_strlit("RPUSH");
    reveal_strlit("RPUSHX");
    reveal_strlit("SADD");
    reveal_strlit("SREM");
    reveal_strlit("GET");
    reveal_strlit("SMEMBERS");
    reveal_strlit("HGETALL");
    assert("SADD"@[1] != "SREM"@[1]);
    assert("SET"@.len() == 3 && "GET"@.len() == 3);
    assert("SADD"@.len() == 4 && "SREM"@.len() == 4);
    assert("RPUSH"@.len() == 5 && "RPUSHX"@.len() == 6);
    assert("SMEMBERS"@.len() == 8 && "HGETALL"@.len() == 7);
    lemma_names_differ("SET"@, "RPUSH"@);
    lemma_names_differ("SET"@, "RPUSHX"@);
    lemma_names_differ("SET"@, "SADD"@);
    lemma_names_differ("SET"@, "SREM"@);
    lemma_names_differ("RPUSH"@, "RPUSHX"@);
    lemma_names_differ("RPUSH"@, "SADD"@);
    lemma_names_differ("RPUSH"@, "SREM"@);
    lemma_names_differ("RPUSHX"@, "SADD"@);
    lemma_names_differ("RPUSHX"@, "SREM"@);
    lemma_names_differ("SADD"@, "SREM"@);
    lemma_names_differ("GET"@, "SMEMBERS"@);
    lemma_names_differ("GET"@, "HGETALL"@);
    lemma_names_differ("SMEMBERS"@, "HGETALL"@);
}

} // verus!
