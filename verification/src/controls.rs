//! Input bindings: their check and the labels that name keys and buttons.

use vstd::prelude::*;

use crate::text::same_text;

verus! {

/// A bound key: the action's name and the key, as `{:?}` names it.
#[derive(Clone, Debug)]
pub struct KeyBinding {
    pub action: String,
    pub key: String,
}

/// Whether an earlier binding than `i` uses the same key.
pub open spec fn key_taken_before(keys: Seq<KeyBinding>, i: int) -> bool {
    exists|j: int| 0 <= j < i && (#[trigger] keys[j]).key@ == keys[i].key@
}

/// The first binding that repeats a key, from position `i` on.
pub open spec fn first_repeated_key(keys: Seq<KeyBinding>, i: int) -> Option<int>
    decreases keys.len() - i,
{
    if i < 0 || i >= keys.len() {
        None
    } else if key_taken_before(keys, i) {
        Some(i)
    } else {
        first_repeated_key(keys, i + 1)
    }
}

/// What the check of the bindings reports.
pub open spec fn bindings_error(keys: Seq<KeyBinding>) -> Option<Seq<char>> {
    match first_repeated_key(keys, 0) {
        Some(i) => Some(
            "control key "@ + keys[i].key@ + " is assigned more than once ("@ + keys[i].action@ + ")"@,
        ),
        None => None,
    }
}

/// Checks that no key is bound to two actions.
pub fn validate_bindings(keys: &Vec<KeyBinding>) -> (r: Result<(), String>)
    ensures
        match r {
            Ok(_) => bindings_error(keys@) is None,
            Err(e) => bindings_error(keys@) == Some(e@),
        },
{
    let mut i: usize = 0;
    while i < keys.len()
        invariant
            i <= keys@.len(),
            first_repeated_key(keys@, 0) == first_repeated_key(keys@, i as int),
        decreases keys@.len() - i,
    {
        let mut j: usize = 0;
        while j < i
            invariant
                i < keys@.len(),
                first_repeated_key(keys@, 0) == first_repeated_key(keys@, i as int),
                j <= i,
                forall|k: int| 0 <= k < j ==> (#[trigger] keys@[k]).key@ != keys@[i as int].key@,
            decreases i - j,
        {
            if same_text(keys[j].key.as_str(), keys[i].key.as_str()) {
                assert(keys@[j as int].key@ == keys@[i as int].key@);
                let mut message = String::from_str("control key ");
                message.append(keys[i].key.as_str());
                message.append(" is assigned more than once (");
                message.append(keys[i].action.as_str());
                message.append(")");
                return Err(message);
            }
            j = j + 1;
        }
        i = i + 1;
    }
    Ok(())
}

/// `s` without every leading `"Key"`, as `trim_start_matches("Key")` leaves it.
pub open spec fn without_key_prefixes(s: Seq<char>) -> Seq<char>
    decreases s.len(),
{
    if s.len() >= 3 && s.subrange(0, 3) == "Key"@ {
        without_key_prefixes(s.subrange(3, s.len() as int))
    } else {
        s
    }
}

/// The label of a key named `name` (its `{:?}` name): digits show as the
/// digit, other keys without their `Key` prefix.
pub open spec fn key_label_spec(name: Seq<char>) -> Seq<char> {
    if name == "Digit0"@ {
        "0"@
    } else if name == "Digit1"@ {
        "1"@
    } else if name == "Digit2"@ {
        "2"@
    } else if name == "Digit3"@ {
        "3"@
    } else if name == "Digit4"@ {
        "4"@
    } else if name == "Digit5"@ {
        "5"@
    } else if name == "Digit6"@ {
        "6"@
    } else if name == "Digit7"@ {
        "7"@
    } else if name == "Digit8"@ {
        "8"@
    } else if name == "Digit9"@ {
        "9"@
    } else {
        without_key_prefixes(name)
    }
}

fn strip_key_prefixes(name: &str) -> (r: String)
    ensures
        r@ == without_key_prefixes(name@),
{
    proof {
        reveal_strlit("Key");
    }
    let n = name.unicode_len();
    let mut from: usize = 0;
    assert(name@.subrange(0, n as int) =~= name@);
    while n - from >= 3 && crate::text::same_text(name.substring_char(from, from + 3), "Key")
        invariant
            n == name@.len(),
            from <= n,
            without_key_prefixes(name@) == without_key_prefixes(name@.subrange(from as int, n as int)),
        decreases n - from,
    {
        proof {
            let rest = name@.subrange(from as int, n as int);
            assert(rest.subrange(0, 3) =~= name@.subrange(from as int, from + 3));
            assert(rest.subrange(3, rest.len() as int) =~= name@.subrange(from + 3, n as int));
        }
        from = from + 3;
    }
    proof {
        let rest = name@.subrange(from as int, n as int);
        if rest.len() >= 3 {
            assert(rest.subrange(0, 3) =~= name@.subrange(from as int, from + 3));
        }
    }
    String::from_str(name.substring_char(from, n))
}

/// The label of a key named `name` (its `{:?}` name).
pub fn key_label(name: &str) -> (r: String)
    ensures
        r@ == key_label_spec(name@),
{
    if same_text(name, "Digit0") {
        return String::from_str("0");
    }
    if same_text(name, "Digit1") {
        return String::from_str("1");
    }
    if same_text(name, "Digit2") {
        return String::from_str("2");
    }
    if same_text(name, "Digit3") {
        return String::from_str("3");
    }
    if same_text(name, "Digit4") {
        return String::from_str("4");
    }
    if same_text(name, "Digit5") {
        return String::from_str("5");
    }
    if same_text(name, "Digit6") {
        return String::from_str("6");
    }
    if same_text(name, "Digit7") {
        return String::from_str("7");
    }
    if same_text(name, "Digit8") {
        return String::from_str("8");
    }
    if same_text(name, "Digit9") {
        return String::from_str("9");
    }
    strip_key_prefixes(name)
}

/// The label of a mouse button named `name` (its `{:?}` name).
pub open spec fn mouse_label_spec(name: Seq<char>) -> Seq<char> {
    if name == "Left"@ {
        "鼠标左键"@
    } else if name == "Right"@ {
        "鼠标右键"@
    } else if name == "Middle"@ {
        "鼠标中键"@
    } else {
        name
    }
}

/// The label of a mouse button named `name` (its `{:?}` name).
pub fn mouse_label(name: &str) -> (r: String)
    ensures
        r@ == mouse_label_spec(name@),
{
    if same_text(name, "Left") {
        String::from_str("鼠标左键")
    } else if same_text(name, "Right") {
        String::from_str("鼠标右键")
    } else if same_text(name, "Middle") {
        String::from_str("鼠标中键")
    } else {
        String::from_str(name)
    }
}

/// The help panel's text, given the labels of the place-or-collect button
/// and of the restart key.
pub fn control_help(place_label: &str, restart_label: &str) -> (r: String)
    ensures
        r@ == "操作说明\n点击植物卡片  选择植物\n"@ + place_label@ + "  放置植物 / 收集太阳\n"@ + restart_label@
            + "  重新开始"@,
{
    let mut text = String::from_str("操作说明\n点击植物卡片  选择植物\n");
    text.append(place_label);
    text.append("  放置植物 / 收集太阳\n");
    text.append(restart_label);
    text.append("  重新开始");
    text
}

/// The subtitle of the victory screen, given the restart key's label.
pub fn victory_subtitle(restart_label: &str) -> (r: String)
    ensures
        r@ == "草坪守住了！按 "@ + restart_label@ + " 再来一局"@,
{
    let mut text = String::from_str("草坪守住了！按 ");
    text.append(restart_label);
    text.append(" 再来一局");
    text
}

/// The subtitle of the defeat screen, given the restart key's label.
pub fn defeat_subtitle(restart_label: &str) -> (r: String)
    ensures
        r@ == "僵尸突破了防线。按 "@ + restart_label@ + " 重新开始"@,
{
    let mut text = String::from_str("僵尸突破了防线。按 ");
    text.append(restart_label);
    text.append(" 重新开始");
    text
}


proof fn lemma_no_repeat_from(keys: Seq<KeyBinding>, k: int)
    requires
        0 <= k,
    ensures
        first_repeated_key(keys, k) is None <==> forall|j: int| k <= j < keys.len() ==> !key_taken_before(keys, j),
    decreases keys.len() - k,
{
    if k < keys.len() {
        lemma_no_repeat_from(keys, k + 1);
        if first_repeated_key(keys, k) is None {
            assert forall|j: int| k <= j < keys.len() implies !key_taken_before(keys, j) by {
                if j > k {
                }
            }
        }
    }
}

/// The bindings pass exactly when no two of them share a key, whichever two
/// they are; when they fail, the message names a key that an earlier binding
/// already uses.
pub proof fn law_bindings_pass_iff_keys_distinct(keys: Seq<KeyBinding>)
    ensures
        bindings_error(keys) is None <==> forall|i: int, j: int| 0 <= i < j < keys.len() ==> keys[i].key@ != keys[j].key@,
{
    lemma_no_repeat_from(keys, 0);
    if bindings_error(keys) is None {
        assert forall|i: int, j: int| 0 <= i < j < keys.len() implies keys[i].key@ != keys[j].key@ by {
            if keys[i].key@ == keys[j].key@ {
                assert(key_taken_before(keys, j));
            }
        }
    } else {
        let j = choose|j: int| 0 <= j < keys.len() && key_taken_before(keys, j);
        let i = choose|i: int| 0 <= i < j && (#[trigger] keys[i]).key@ == keys[j].key@;
        assert(0 <= i < j < keys.len() && keys[i].key@ == keys[j].key@);
    }
}

} // verus!
