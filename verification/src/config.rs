use vstd::prelude::*;

verus! {

#[verifier::external_type_specification]
#[verifier::external_body]
pub struct ExJsonValue(serde_json::Value);

#[verifier::external_type_specification]
#[verifier::external_body]
#[verifier::reject_recursive_types(K)]
#[verifier::reject_recursive_types(V)]
pub struct ExJsonMap<K, V>(serde_json::Map<K, V>);

#[verifier::external_type_specification]
#[verifier::external_body]
pub struct ExJsonError(serde_json::Error);

/// The keys of a JSON object.
pub uninterp spec fn json_keys(m: serde_json::Map<String, serde_json::Value>) -> Set<Seq<char>>;

/// The entries of a JSON object whose value is a JSON boolean.
pub uninterp spec fn json_bools(m: serde_json::Map<String, serde_json::Value>) -> Map<
    Seq<char>,
    bool,
>;

/// The entries of a JSON object whose value is not a JSON boolean, each value
/// by its compact JSON text (as `Value`'s `Display` writes it).
pub uninterp spec fn json_others(m: serde_json::Map<String, serde_json::Value>) -> Map<
    Seq<char>,
    Seq<char>,
>;

/// What `serde_json::from_str::<serde_json::Value>` makes of a text: `None`
/// where it is not JSON, `Some(None)` where it is JSON but not an object, else
/// the keys of the object, its entries that hold a boolean, and its other
/// entries by their JSON text.
pub uninterp spec fn json_object_of(text: Seq<char>) -> Option<
    Option<(Set<Seq<char>>, Map<Seq<char>, bool>, Map<Seq<char>, Seq<char>>)>,
>;

/// Calls `serde_json::from_str::<serde_json::Value>` and takes the object out
/// of the value (`Value::Object`); the outcome is named `json_object_of` of the
/// text.
#[verifier::external_body]
fn parse_json_object(text: &str) -> (r: Result<
    Option<serde_json::Map<String, serde_json::Value>>,
    serde_json::Error,
>)
    ensures
        match r {
            Err(_) => json_object_of(text@) is None,
            Ok(None) => json_object_of(text@) == Some(
                None::<(Set<Seq<char>>, Map<Seq<char>, bool>, Map<Seq<char>, Seq<char>>)>,
            ),
            Ok(Some(m)) => json_object_of(text@) == Some(
                Some((json_keys(m), json_bools(m), json_others(m))),
            ),
        },
{
    match serde_json::from_str::<serde_json::Value>(text) {
        Ok(serde_json::Value::Object(m)) => Ok(Some(m)),
        Ok(_) => Ok(None),
        Err(e) => Err(e),
    }
}

/// `Map::contains_key`: whether the object has the key.
#[verifier::external_body]
fn object_has(m: &serde_json::Map<String, serde_json::Value>, key: &str) -> (b: bool)
    ensures
        b == json_keys(*m).contains(key@),
{
    m.contains_key(key)
}

/// `Map::get` followed by `Value::as_bool`: the boolean under the key, where
/// there is one; a key that holds a boolean is a key of the object.
#[verifier::external_body]
fn object_bool(m: &serde_json::Map<String, serde_json::Value>, key: &str) -> (r: Option<bool>)
    ensures
        r == (if json_bools(*m).contains_key(key@) {
            Some(json_bools(*m)[key@])
        } else {
            None
        }),
        r is Some ==> json_keys(*m).contains(key@),
{
    m.get(key).and_then(serde_json::Value::as_bool)
}

/// `Map::remove`: the key and its value leave the object.
#[verifier::external_body]
fn object_remove(m: &mut serde_json::Map<String, serde_json::Value>, key: &str)
    ensures
        json_keys(*final(m)) == json_keys(*old(m)).remove(key@),
        json_bools(*final(m)) == json_bools(*old(m)).remove(key@),
        json_others(*final(m)) == json_others(*old(m)).remove(key@),
{
    m.remove(key);
}

/// `Map::insert` of `Value::Bool`: the key now holds that boolean.
#[verifier::external_body]
fn object_insert_bool(m: &mut serde_json::Map<String, serde_json::Value>, key: String, b: bool)
    ensures
        json_keys(*final(m)) == json_keys(*old(m)).insert(key@),
        json_bools(*final(m)) == json_bools(*old(m)).insert(key@, b),
        json_others(*final(m)) == json_others(*old(m)).remove(key@),
{
    m.insert(key, serde_json::Value::Bool(b));
}

/// A flag read the lenient way: the boolean under the key, `false` where the
/// key is missing or holds something else.
pub open spec fn lenient_flag(bools: Map<Seq<char>, bool>, key: Seq<char>) -> bool {
    bools.contains_key(key) && bools[key]
}

/// The object holds both the current `stealth` key and its older name
/// `hides_game`, which the settings type accepts as an alias of each other
/// but not together.
pub open spec fn has_both_names(keys: Set<Seq<char>>) -> bool {
    keys.contains("stealth"@) && keys.contains("hides_game"@)
}

/// The keys after folding: `stealth` leaves where both names are present.
pub open spec fn merged_keys(keys: Set<Seq<char>>) -> Set<Seq<char>> {
    if has_both_names(keys) {
        keys.remove("stealth"@)
    } else {
        keys
    }
}

/// The boolean entries after folding: where both names are present,
/// `stealth` leaves and `hides_game` holds "either was true".
pub open spec fn merged_bools(keys: Set<Seq<char>>, bools: Map<Seq<char>, bool>) -> Map<
    Seq<char>,
    bool,
> {
    if has_both_names(keys) {
        bools.remove("stealth"@).insert(
            "hides_game"@,
            lenient_flag(bools, "stealth"@) || lenient_flag(bools, "hides_game"@),
        )
    } else {
        bools
    }
}

/// The other entries after folding: both names leave them where both are
/// present (`hides_game` now holds a boolean); the rest stay as they were.
pub open spec fn merged_others(keys: Set<Seq<char>>, others: Map<Seq<char>, Seq<char>>) -> Map<
    Seq<char>,
    Seq<char>,
> {
    if has_both_names(keys) {
        others.remove("stealth"@).remove("hides_game"@)
    } else {
        others
    }
}

/// Folds `stealth` into `hides_game` where a settings object holds both:
/// `stealth` leaves, and `hides_game` becomes the boolean "either was true".
/// Any other object is left as it is.
pub fn merge_legacy_stealth(object: &mut serde_json::Map<String, serde_json::Value>)
    ensures
        json_keys(*final(object)) == merged_keys(json_keys(*old(object))),
        json_bools(*final(object)) == merged_bools(json_keys(*old(object)), json_bools(*old(object))),
        json_others(*final(object)) == merged_others(json_keys(*old(object)), json_others(*old(object))),
        !has_both_names(json_keys(*old(object))) ==> *final(object) == *old(object),
        !has_both_names(json_keys(*final(object))),
{
    if object_has(object, "stealth") && object_has(object, "hides_game") {
        let stealth = match object_bool(object, "stealth") {
            Some(b) => b,
            None => false,
        };
        let hides_game = match object_bool(object, "hides_game") {
            Some(b) => b,
            None => false,
        };
        let enabled = stealth || hides_game;
        let ghost keys0 = json_keys(*object);
        object_remove(object, "stealth");
        object_insert_bool(object, "hides_game".to_owned(), enabled);
        proof {
            reveal_strlit("stealth");
            reveal_strlit("hides_game");
            assert("stealth"@ != "hides_game"@) by {
                assert("stealth"@[0] != "hides_game"@[0]);
            }
            assert(json_keys(*object) =~= keys0.remove("stealth"@));
        }
    }
}

/// What a settings text that the settings type rejected can be made into.
pub enum ConfigRepair {
    /// The text is not JSON at all.
    Invalid(serde_json::Error),
    /// The text is JSON but not an object.
    NotAnObject,
    /// The object, with `stealth` folded into `hides_game` where it held both.
    Repaired(serde_json::Map<String, serde_json::Value>),
}

/// Reads a settings text as a JSON object and folds the duplicate hide-game
/// flag, so that the settings type can read it.
pub fn repair_legacy_config(text: &str) -> (r: ConfigRepair)
    ensures
        r is Invalid <==> json_object_of(text@) is None,
        r is NotAnObject <==> json_object_of(text@) == Some(
            None::<(Set<Seq<char>>, Map<Seq<char>, bool>, Map<Seq<char>, Seq<char>>)>,
        ),
        r matches ConfigRepair::Repaired(m) ==> exists|
            keys: Set<Seq<char>>,
            bools: Map<Seq<char>, bool>,
            others: Map<Seq<char>, Seq<char>>,
        |
            {
                &&& json_object_of(text@) == Some(Some((keys, bools, others)))
                &&& json_keys(m) == merged_keys(keys)
                &&& json_bools(m) == merged_bools(keys, bools)
                &&& json_others(m) == merged_others(keys, others)
            },
        r matches ConfigRepair::Repaired(m) ==> !has_both_names(json_keys(m)),
{
    match parse_json_object(text) {
        Err(e) => ConfigRepair::Invalid(e),
        Ok(None) => ConfigRepair::NotAnObject,
        Ok(Some(mut object)) => {
            let ghost keys = json_keys(object);
            let ghost bools = json_bools(object);
            let ghost others = json_others(object);
            merge_legacy_stealth(&mut object);
            assert(json_object_of(text@) == Some(Some((keys, bools, others))));
            ConfigRepair::Repaired(object)
        },
    }
}

} // verus!
