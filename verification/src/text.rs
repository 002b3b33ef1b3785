//! The wording of the announcements.

use vstd::prelude::*;
use vstd::string::StringExecFns;

verus! {

/// The character that stands for the digit `d`.
pub open spec fn digit_char(d: int) -> char {
    if d == 0 {
        '0'
    } else if d == 1 {
        '1'
    } else if d == 2 {
        '2'
    } else if d == 3 {
        '3'
    } else if d == 4 {
        '4'
    } else if d == 5 {
        '5'
    } else if d == 6 {
        '6'
    } else if d == 7 {
        '7'
    } else if d == 8 {
        '8'
    } else {
        '9'
    }
}

/// The decimal digits of `n`, the highest first.
pub open spec fn decimal_nat(n: nat) -> Seq<char>
    decreases n,
{
    if n < 10 {
        seq![digit_char(n as int)]
    } else {
        decimal_nat(n / 10).push(digit_char((n % 10) as int))
    }
}

/// The decimal digits of `n`, behind a minus sign where `n` is negative.
pub open spec fn decimal(n: int) -> Seq<char> {
    if n < 0 {
        seq!['-'] + decimal_nat((-n) as nat)
    } else {
        decimal_nat(n as nat)
    }
}

/// The text that stands for the digit `d`.
fn digit_str(d: u64) -> (r: &'static str)
    requires
        d < 10,
    ensures
        r@ == seq![digit_char(d as int)],
{
    proof {
        reveal_strlit("0");
        reveal_strlit("1");
        reveal_strlit("2");
        reveal_strlit("3");
        reveal_strlit("4");
        reveal_strlit("5");
        reveal_strlit("6");
        reveal_strlit("7");
        reveal_strlit("8");
        reveal_strlit("9");
    }
    let r = if d == 0 {
        "0"
    } else if d == 1 {
        "1"
    } else if d == 2 {
        "2"
    } else if d == 3 {
        "3"
    } else if d == 4 {
        "4"
    } else if d == 5 {
        "5"
    } else if d == 6 {
        "6"
    } else if d == 7 {
        "7"
    } else if d == 8 {
        "8"
    } else {
        "9"
    };
    assert(r@ =~= seq![digit_char(d as int)]);
    r
}

/// Writes the decimal digits of `n` at the end of `text`.
fn push_decimal_nat(text: &mut String, n: u64)
    ensures
        final(text)@ == old(text)@ + decimal_nat(n as nat),
    decreases n,
{
    if n >= 10 {
        push_decimal_nat(text, n / 10);
    }
    text.append(digit_str(n % 10));
    assert(text@ =~= old(text)@ + decimal_nat(n as nat));
}

/// Writes `n` in decimal at the end of `text`.
pub fn push_decimal(text: &mut String, n: i64)
    ensures
        final(text)@ == old(text)@ + decimal(n as int),
{
    if n < 0 {
        proof {
            reveal_strlit("-");
        }
        text.append("-");
        let magnitude: u64 = (-(n + 1)) as u64 + 1;
        push_decimal_nat(text, magnitude);
        assert(text@ =~= old(text)@ + decimal(n as int));
    } else {
        push_decimal_nat(text, n as u64);
    }
}

/// `n` written in decimal.
pub fn decimal_string(n: i64) -> (r: String)
    ensures
        r@ == decimal(n as int),
{
    let mut text = String::new();
    push_decimal(&mut text, n);
    assert(text@ =~= decimal(n as int));
    text
}

/// What is said when the player's attack `name` has come to `damage`. A
/// negative damage has healed the enemy.
pub open spec fn player_attack_text(name: Seq<char>, damage: int) -> Seq<char> {
    if damage >= 0 {
        "You used "@ + name + ", dealing "@ + decimal(damage) + " damage."@
    } else {
        "You used "@ + name + ", healing "@ + decimal(-damage) + " to the enemy!"@
    }
}

/// Words the announcement of a player's attack.
pub fn player_attack_message(name: &str, damage: i32) -> (r: String)
    ensures
        r@ == player_attack_text(name@, damage as int),
{
    let mut text = String::from_str("You used ");
    text.append(name);
    if damage >= 0 {
        text.append(", dealing ");
        push_decimal(&mut text, damage as i64);
        text.append(" damage.");
    } else {
        text.append(", healing ");
        push_decimal(&mut text, -(damage as i64));
        text.append(" to the enemy!");
    }
    text
}

/// What is said when the player blocks.
pub open spec fn block_text() -> Seq<char> {
    "You blocked their next attack."@
}

/// Words the announcement of a block.
pub fn block_message() -> (r: String)
    ensures
        r@ == block_text(),
{
    String::from_str("You blocked their next attack.")
}

/// What is said when the player has used the item `name`, which restores
/// `hp` hit points and `mp` magic points. Only amounts above zero are
/// mentioned.
pub open spec fn item_text(name: Seq<char>, hp: int, mp: int) -> Seq<char> {
    let start = "You used "@ + name + ", healing"@;
    let with_hp = if hp > 0 {
        start + " "@ + decimal(hp) + " HP"@
    } else {
        start
    };
    if mp > 0 {
        with_hp + " "@ + decimal(mp) + " MP"@
    } else {
        with_hp
    }
}

/// Words the announcement of a used item.
pub fn item_message(name: &str, hp: i32, mp: i32) -> (r: String)
    ensures
        r@ == item_text(name@, hp as int, mp as int),
{
    let mut text = String::from_str("You used ");
    text.append(name);
    text.append(", healing");
    if hp > 0 {
        text.append(" ");
        push_decimal(&mut text, hp as i64);
        text.append(" HP");
    }
    if mp > 0 {
        text.append(" ");
        push_decimal(&mut text, mp as i64);
        text.append(" MP");
    }
    text
}

/// What is said when `enemy` has used `attack` for `damage`.
pub open spec fn enemy_attack_text(enemy: Seq<char>, attack: Seq<char>, damage: int) -> Seq<
    char,
> {
    enemy + " used "@ + attack + ", dealing "@ + decimal(damage) + " damage to you!"@
}

/// Words the announcement of an enemy's attack.
pub fn enemy_attack_message(enemy: &str, attack: &str, damage: i32) -> (r: String)
    ensures
        r@ == enemy_attack_text(enemy@, attack@, damage as int),
{
    let mut text = String::from_str(enemy);
    text.append(" used ");
    text.append(attack);
    text.append(", dealing ");
    push_decimal(&mut text, damage as i64);
    text.append(" damage to you!");
    text
}

/// What is said when `enemy` has been defeated.
pub open spec fn victory_text(enemy: Seq<char>) -> Seq<char> {
    "You defeated "@ + enemy + "!"@
}

/// Words the announcement of a victory.
pub fn victory_message(enemy: &str) -> (r: String)
    ensures
        r@ == victory_text(enemy@),
{
    let mut text = String::from_str("You defeated ");
    text.append(enemy);
    text.append("!");
    text
}

/// What is said when `amount` experience has been earned.
pub open spec fn experience_text(amount: int) -> Seq<char> {
    "You gained "@ + decimal(amount) + " experience!"@
}

/// Words the announcement of earned experience.
pub fn experience_message(amount: i32) -> (r: String)
    ensures
        r@ == experience_text(amount as int),
{
    let mut text = String::from_str("You gained ");
    push_decimal(&mut text, amount as i64);
    text.append(" experience!");
    text
}

/// What is said when a level has been gained.
pub open spec fn level_up_text() -> Seq<char> {
    "You leveled up!"@
}

/// Words the announcement of a gained level.
pub fn level_up_message() -> (r: String)
    ensures
        r@ == level_up_text(),
{
    String::from_str("You leveled up!")
}

/// What is said of the attacks that come with `level`. The levels 2 to 5
/// each unlock something; no other level does.
pub open spec fn unlock_text(level: int) -> Option<Seq<char>> {
    if level == 2 {
        Some("You've unlocked tier 2 magic!"@)
    } else if level == 3 {
        Some("You've unlocked tier 2 limit break!"@)
    } else if level == 4 {
        Some("You've unlocked tier 3 magic!"@)
    } else if level == 5 {
        Some("You've unlocked tier 3 limit break!"@)
    } else {
        None
    }
}

/// Words the announcement of the attacks that come with `level`.
pub fn unlock_message(level: i32) -> (r: Option<String>)
    ensures
        r is Some <==> unlock_text(level as int) is Some,
        r is Some ==> r.unwrap()@ == unlock_text(level as int).unwrap(),
{
    if level == 2 {
        Some(String::from_str("You've unlocked tier 2 magic!"))
    } else if level == 3 {
        Some(String::from_str("You've unlocked tier 2 limit break!"))
    } else if level == 4 {
        Some(String::from_str("You've unlocked tier 3 magic!"))
    } else if level == 5 {
        Some(String::from_str("You've unlocked tier 3 limit break!"))
    } else {
        None
    }
}

/// What is said when the item `name` has dropped.
pub open spec fn loot_text(name: Seq<char>) -> Seq<char> {
    "You've gained "@ + name
}

/// Words the announcement of a dropped item.
pub fn loot_message(name: &str) -> (r: String)
    ensures
        r@ == loot_text(name@),
{
    let mut text = String::from_str("You've gained ");
    text.append(name);
    text
}

/// What is said when `enemy` has won.
pub open spec fn defeat_text(enemy: Seq<char>) -> Seq<char> {
    enemy + " defeated you!"@
}

/// Words the announcement of a defeat.
pub fn defeat_message(enemy: &str) -> (r: String)
    ensures
        r@ == defeat_text(enemy@),
{
    let mut text = String::from_str(enemy);
    text.append(" defeated you!");
    text
}

} // verus!
