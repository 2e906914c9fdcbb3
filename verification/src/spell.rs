//! The spell emitter: walks one spell record and issues builder calls
//! according to the target schema's field-by-field mapping rules. The spec
//! functions state the exact characters every spell contributes to the
//! client document.

use vstd::prelude::*;
use vstd::string::StringExecFns;
use crate::inputs::AbilityScore;
use crate::inputs::ActionDamage;
use crate::inputs::AttackRange;
use crate::inputs::DamageModifier;
use crate::inputs::Dice;
use crate::inputs::ModuleDefinition;
use crate::inputs::SpellActions;
use crate::inputs::SpellCastDuration;
use crate::inputs::SpellDamage;
use crate::inputs::SpellDefinition;
use crate::inputs::SpellEffect;
use crate::inputs::SpellEffectDuration;
use crate::inputs::SpellLevel;
use crate::inputs::SpellRange;
use crate::inputs::SpellSave;
use crate::inputs::SpellStat;
use crate::inputs::TimeUnit;
use crate::inputs::ToSave;
use crate::inputs::long_name_chars;
use crate::markup::html_of;
use crate::markup::to_html;
use crate::xml::XmlBuilder;
use crate::xml::bool_num;
use crate::xml::dec_chars;
use crate::xml::id_name;
use crate::xml::id_name_chars;
use crate::xml::end_tag;
use crate::xml::nl_indent;
use crate::xml::no_attr;
use crate::xml::no_attrs;
use crate::xml::number_attr;
use crate::xml::number_attrs;
use crate::xml::parent_elem_chars;
use crate::xml::raw_elem_chars;
use crate::xml::start_tag;
use crate::xml::string_attr;
use crate::xml::string_attrs;
use crate::xml::text_elem_chars;
use crate::xml::type_attrs;
use crate::xml::typed_attr;
use crate::xml::usize_dec;

verus! {

// ---------------------------------------------------------------------------
// Field renderings
// ---------------------------------------------------------------------------

/// The literal rendering of a casting time.
pub open spec fn cast_time_chars(c: SpellCastDuration) -> Seq<char> {
    match c {
        SpellCastDuration::Reaction => "1 reaction"@,
        SpellCastDuration::BonusAction { count } => dec_chars(count as nat) + " bonus action"@,
        SpellCastDuration::Action { count } => dec_chars(count as nat) + " action"@,
        SpellCastDuration::Instant => "instant"@,
        SpellCastDuration::Forever => "forever"@,
    }
}

/// The numeric spell level: a cantrip is level 0.
pub open spec fn spell_level_num(l: SpellLevel) -> nat {
    match l {
        SpellLevel::Cantrip => 0,
        SpellLevel::Level { number } => number as nat,
    }
}

/// The literal rendering of an attack's range.
pub open spec fn atk_type_chars(r: AttackRange) -> Seq<char> {
    match r {
        AttackRange::Melee => "melee"@,
        AttackRange::Ranged => "ranged"@,
    }
}

/// The literal spelling of a time unit.
pub open spec fn time_unit_chars(u: TimeUnit) -> Seq<char> {
    match u {
        TimeUnit::Minute => "minute"@,
        TimeUnit::Hour => "hour"@,
        TimeUnit::Round => "round"@,
    }
}

/// The ability a save statistic refers to.
pub open spec fn ability_of(st: SpellStat) -> AbilityScore {
    match st {
        SpellStat::AbilityScore { ability } => ability,
    }
}

/// One dice spec as count then face type, e.g. "2d6".
pub open spec fn dice_chars(di: Dice) -> Seq<char> {
    dec_chars(di.count as nat) + di.dice_type@
}

/// A whole dice list, comma-joined into one string.
pub open spec fn dice_list_chars(s: Seq<Dice>) -> Seq<char>
    decreases s.len(),
{
    if s.len() == 0 {
        Seq::empty()
    } else if s.len() == 1 {
        dice_chars(s[0])
    } else {
        dice_list_chars(s.drop_last()) + ","@ + dice_chars(s.last())
    }
}

impl AttackRange {
    /// The literal rendering of this range.
    pub fn to_xml(&self) -> (r: String)
        ensures
            r@ == atk_type_chars(*self),
    {
        match self {
            AttackRange::Melee => String::from_str("melee"),
            AttackRange::Ranged => String::from_str("ranged"),
        }
    }
}

// ---------------------------------------------------------------------------
// Action payloads
// ---------------------------------------------------------------------------

/// The fields of one attack action, at depth `d`.
pub open spec fn attack_chars(a: SpellRange, d: nat) -> Seq<char> {
    text_elem_chars(d, "atktype"@, string_attr(), atk_type_chars(a.range)) + text_elem_chars(
        d,
        "type"@,
        string_attr(),
        "cast"@,
    ) + text_elem_chars(d, "tknbutton"@, typed_attr("tknbutton"@), ""@) + text_elem_chars(
        d,
        "tknimg"@,
        typed_attr("tknbutton"@),
        ""@,
    )
}

/// The difficulty fields of one save action: a plain difficulty class
/// emits a zero modifier with proficiency asserted, a fixed difficulty
/// emits nothing, and an ability-based difficulty emits its source, bonus,
/// proficiency flag and long-form ability name.
pub open spec fn save_dc_chars(s: SpellSave, d: nat) -> Seq<char> {
    match s.save {
        ToSave::DC => text_elem_chars(d, "savedcmod"@, number_attr(), "0"@) + text_elem_chars(
            d,
            "savedcprof"@,
            number_attr(),
            "1"@,
        ),
        ToSave::Fixed { value } => Seq::empty(),
        ToSave::Ability(custom) => text_elem_chars(d, "savedcbase"@, string_attr(), "ability"@)
            + text_elem_chars(d, "savedcmod"@, number_attr(), dec_chars(custom.bonus as nat))
            + text_elem_chars(
            d,
            "savedcprof"@,
            number_attr(),
            dec_chars(bool_num(custom.is_proficient)),
        ) + text_elem_chars(d, "savedcstat"@, string_attr(), long_name_chars(
            ability_of(custom.stat),
        )),
    }
}

/// The fields of one save action, at depth `d`.
pub open spec fn save_chars(s: SpellSave, d: nat) -> Seq<char> {
    save_dc_chars(s, d) + text_elem_chars(
        d,
        "savemagic"@,
        number_attr(),
        dec_chars(bool_num(s.is_magic)),
    ) + text_elem_chars(d, "savetype"@, string_attr(), long_name_chars(ability_of(s.stat)))
        + text_elem_chars(d, "tknbutton"@, typed_attr("tknbutton"@), ""@) + text_elem_chars(
        d,
        "tknimg"@,
        typed_attr("tknbutton"@),
        ""@,
    ) + text_elem_chars(d, "type"@, string_attr(), "cast"@)
}

/// The duration fields of one effect action: a finite duration emits its
/// unit's spelling and its count, an indefinite one emits neither field.
pub open spec fn effect_extra_chars(e: SpellEffect, d: nat) -> Seq<char> {
    match e.duration {
        SpellEffectDuration::Finite(f) => text_elem_chars(
            d,
            "durunit"@,
            string_attr(),
            time_unit_chars(f.unit),
        ) + text_elem_chars(d, "durmod"@, number_attr(), dec_chars(f.count as nat)),
        SpellEffectDuration::Indefinite => Seq::empty(),
    }
}

/// The fields of one effect action, at depth `d`.
pub open spec fn effect_chars(e: SpellEffect, d: nat) -> Seq<char> {
    (if e.targets_self {
        text_elem_chars(d, "targeting"@, string_attr(), "self"@)
    } else {
        Seq::empty()
    }) + text_elem_chars(d, "type"@, string_attr(), "effect"@) + text_elem_chars(
        d,
        "label"@,
        string_attr(),
        e.effect@,
    ) + effect_extra_chars(e, d)
}

/// One damage group, the `j`-th of its list (1-based), at depth `d`.
pub open spec fn damage_group_chars(g: SpellDamage, j: nat, d: nat) -> Seq<char> {
    parent_elem_chars(
        d,
        id_name_chars(j),
        no_attr(),
        text_elem_chars(d + 1, "type"@, string_attr(), g.damage_type@) + text_elem_chars(
            d + 1,
            "dice"@,
            typed_attr("dice"@),
            dice_list_chars(g.dice@),
        ) + match g.modifier {
            DamageModifier::AbilityScore { ability } => text_elem_chars(
                d + 1,
                "stat"@,
                string_attr(),
                long_name_chars(ability),
            ),
            DamageModifier::NoModifier => Seq::empty(),
        },
    )
}

/// All damage groups of one damage action, numbered from 1, at depth `d`.
pub open spec fn damage_groups_chars(gs: Seq<SpellDamage>, d: nat) -> Seq<char>
    decreases gs.len(),
{
    if gs.len() == 0 {
        Seq::empty()
    } else {
        damage_groups_chars(gs.drop_last(), d) + damage_group_chars(gs.last(), gs.len(), d)
    }
}

/// The fields of one damage action, at depth `d`.
pub open spec fn damage_chars(a: ActionDamage, d: nat) -> Seq<char> {
    text_elem_chars(d, "type"@, string_attr(), "damage"@) + parent_elem_chars(
        d,
        "damagelist"@,
        no_attr(),
        damage_groups_chars(a.damage@, d + 1),
    )
}

// ---------------------------------------------------------------------------
// The shared action index
// ---------------------------------------------------------------------------

/// One action of a spell, of whichever of the four categories.
pub enum ActionItem {
    Attack(SpellRange),
    Save(SpellSave),
    Damage(ActionDamage),
    Effect(SpellEffect),
}

/// All actions of a spell in the fixed category order: attacks, then
/// saves, then damages, then effects.
pub open spec fn all_actions(a: SpellActions) -> Seq<ActionItem> {
    a.attacks@.map_values(|x: SpellRange| ActionItem::Attack(x)) + a.saves@.map_values(
        |x: SpellSave| ActionItem::Save(x),
    ) + a.damages@.map_values(|x: ActionDamage| ActionItem::Damage(x))
        + a.effects@.map_values(|x: SpellEffect| ActionItem::Effect(x))
}

/// The category-specific fields of one action, at depth `d`.
pub open spec fn action_payload_chars(item: ActionItem, d: nat) -> Seq<char> {
    match item {
        ActionItem::Attack(a) => attack_chars(a, d),
        ActionItem::Save(s) => save_chars(s, d),
        ActionItem::Damage(g) => damage_chars(g, d),
        ActionItem::Effect(e) => effect_chars(e, d),
    }
}

/// One action element: named by its shared index, carrying that index as
/// its explicit order, then its category-specific fields.
pub open spec fn action_item_chars(item: ActionItem, idx: nat, d: nat) -> Seq<char> {
    parent_elem_chars(
        d,
        id_name_chars(idx),
        no_attr(),
        text_elem_chars(d + 1, "order"@, number_attr(), dec_chars(idx)) + action_payload_chars(
            item,
            d + 1,
        ),
    )
}

/// A list of action elements at depth `d`, the `i`-th (0-based) carrying
/// index `i + 1`.
pub open spec fn actions_list_chars(items: Seq<ActionItem>, d: nat) -> Seq<char>
    decreases items.len(),
{
    if items.len() == 0 {
        Seq::empty()
    } else {
        actions_list_chars(items.drop_last(), d) + action_item_chars(
            items.last(),
            items.len(),
            d,
        )
    }
}

/// The whole actions sub-tree of a spell, at depth `d`.
pub open spec fn actions_chars(a: SpellActions, d: nat) -> Seq<char> {
    parent_elem_chars(d, "actions"@, no_attr(), actions_list_chars(all_actions(a), d + 1))
}

/// The shared action counter stays within the machine's integer range.
pub open spec fn actions_fit(a: SpellActions) -> bool {
    a.attacks@.len() + a.saves@.len() + a.damages@.len() + a.effects@.len() + 1 <= usize::MAX
}

/// The action elements under "actions" are one per action, in the fixed
/// category order, and their indices — the element names and explicit
/// order values — are the contiguous integers 1..N.
pub proof fn lemma_action_order_contiguous(a: SpellActions, d: nat)
    ensures
        all_actions(a).len() == a.attacks@.len() + a.saves@.len() + a.damages@.len()
            + a.effects@.len(),
        forall|i: int|
            0 <= i < a.attacks@.len() ==> all_actions(a)[i] == ActionItem::Attack(
                #[trigger] a.attacks@[i],
            ),
        forall|i: int|
            0 <= i < a.saves@.len() ==> all_actions(a)[a.attacks@.len() + i] == ActionItem::Save(
                #[trigger] a.saves@[i],
            ),
        forall|i: int|
            0 <= i < a.damages@.len() ==> all_actions(a)[a.attacks@.len() + a.saves@.len() + i]
                == ActionItem::Damage(#[trigger] a.damages@[i]),
        forall|i: int|
            0 <= i < a.effects@.len() ==> all_actions(a)[a.attacks@.len() + a.saves@.len()
                + a.damages@.len() + i] == ActionItem::Effect(#[trigger] a.effects@[i]),
        forall|i: int|
            0 <= i < all_actions(a).len() ==> actions_list_chars(all_actions(a).take(i + 1), d)
                == #[trigger] actions_list_chars(all_actions(a).take(i), d) + action_item_chars(
                all_actions(a)[i],
                (i + 1) as nat,
                d,
            ),
{
    let items = all_actions(a);
    assert forall|i: int| 0 <= i < items.len() implies actions_list_chars(items.take(i + 1), d)
        == #[trigger] actions_list_chars(items.take(i), d) + action_item_chars(
        items[i],
        (i + 1) as nat,
        d,
    ) by {
        assert(items.take(i + 1).drop_last() =~= items.take(i));
        assert(items.take(i + 1).last() == items[i]);
    }
}

/// An effect with an indefinite duration emits neither a duration unit
/// nor a duration count.
pub proof fn lemma_indefinite_effect_omits_duration(e: SpellEffect, d: nat)
    requires
        e.duration is Indefinite,
    ensures
        effect_extra_chars(e, d) == Seq::<char>::empty(),
{
}

// ---------------------------------------------------------------------------
// The whole spell element
// ---------------------------------------------------------------------------

/// The leading fields of one spell: casting time, description, optional
/// duration and numeric level, at depth `d`.
pub open spec fn spell_body_a(s: SpellDefinition, d: nat) -> Seq<char> {
    text_elem_chars(d, "castingtime"@, string_attr(), cast_time_chars(s.casting_time))
        + raw_elem_chars(d, "description"@, typed_attr("formattedtext"@), html_of(s.description@))
        + (match s.duration {
        Some(t) => text_elem_chars(d, "duration"@, string_attr(), t@),
        None => Seq::empty(),
    }) + text_elem_chars(d, "level"@, number_attr(), dec_chars(spell_level_num(s.spell_level)))
}

/// The middle fields of one spell: the locked flag, name, ritual flag,
/// school, preparation flag and optional short description, at depth `d`.
pub open spec fn spell_body_b(s: SpellDefinition, d: nat) -> Seq<char> {
    text_elem_chars(d, "locked"@, number_attr(), "1"@) + text_elem_chars(
        d,
        "name"@,
        string_attr(),
        s.name@,
    ) + text_elem_chars(d, "ritual"@, number_attr(), dec_chars(bool_num(s.is_ritual)))
        + text_elem_chars(d, "school"@, string_attr(), s.school@) + text_elem_chars(
        d,
        "prepared"@,
        number_attr(),
        dec_chars(bool_num(s.needs_preperation)),
    ) + (match s.short_description {
        Some(t) => text_elem_chars(d, "shortdescription"@, string_attr(), t@),
        None => Seq::empty(),
    })
}

/// The trailing fields of one spell: group, source and the actions
/// sub-tree, at depth `d`.
pub open spec fn spell_body_c(s: SpellDefinition, module_name: Seq<char>, d: nat) -> Seq<char> {
    text_elem_chars(d, "group"@, string_attr(), s.group@) + text_elem_chars(
        d,
        "source"@,
        string_attr(),
        module_name,
    ) + actions_chars(s.actions, d)
}

/// The fields of one spell, in the schema's fixed order, at depth `d`.
pub open spec fn spell_body_chars(s: SpellDefinition, module_name: Seq<char>, d: nat) -> Seq<
    char,
> {
    spell_body_a(s, d) + spell_body_b(s, d) + spell_body_c(s, module_name, d)
}

/// One whole spell element: named by the spell's identifier, holding the
/// spell's fields and its actions sub-tree.
pub open spec fn spell_chars(s: SpellDefinition, module_name: Seq<char>, d: nat) -> Seq<char> {
    parent_elem_chars(
        d,
        id_name_chars(s.id@ as nat),
        no_attr(),
        spell_body_chars(s, module_name, d + 1),
    )
}

// ---------------------------------------------------------------------------
// Emitters
// ---------------------------------------------------------------------------

/// Appending the pieces of one damage group element equals appending the
/// whole element's rendering.
proof fn lemma_damage_group_append(buf: Seq<char>, g: SpellDamage, j: nat, d: nat)
    ensures
        buf + nl_indent(d) + start_tag(id_name_chars(j), no_attr()) + text_elem_chars(
            d + 1,
            "type"@,
            string_attr(),
            g.damage_type@,
        ) + text_elem_chars(d + 1, "dice"@, typed_attr("dice"@), dice_list_chars(g.dice@))
            + (match g.modifier {
            DamageModifier::AbilityScore { ability } => text_elem_chars(
                d + 1,
                "stat"@,
                string_attr(),
                long_name_chars(ability),
            ),
            DamageModifier::NoModifier => Seq::empty(),
        }) + nl_indent(d) + end_tag(id_name_chars(j)) == buf + damage_group_chars(g, j, d),
{
    broadcast use crate::xml::lemma_add_assoc_chars;

    reveal(parent_elem_chars);
}

/// Appending the pieces of one damage action equals appending the whole
/// action's rendering.
proof fn lemma_damage_chars_append(buf: Seq<char>, a: ActionDamage, d: nat)
    ensures
        buf + text_elem_chars(d, "type"@, string_attr(), "damage"@) + nl_indent(d) + start_tag(
            "damagelist"@,
            no_attr(),
        ) + damage_groups_chars(a.damage@, (d + 1) as nat) + nl_indent(d) + end_tag("damagelist"@)
            == buf + damage_chars(a, d),
{
    broadcast use crate::xml::lemma_add_assoc_chars;

    reveal(parent_elem_chars);
}

/// Appending the pieces of the actions sub-tree equals appending the whole
/// sub-tree's rendering.
proof fn lemma_actions_chars_append(buf: Seq<char>, a: SpellActions, d: nat)
    ensures
        buf + nl_indent(d) + start_tag("actions"@, no_attr()) + actions_list_chars(
            all_actions(a),
            (d + 1) as nat,
        ) + nl_indent(d) + end_tag("actions"@) == buf + actions_chars(a, d),
{
    broadcast use crate::xml::lemma_add_assoc_chars;

    reveal(parent_elem_chars);
}

/// Appending the pieces of one action element equals appending the whole
/// element's rendering.
proof fn lemma_action_item_append(buf: Seq<char>, item: ActionItem, idx: nat, d: nat)
    ensures
        buf + nl_indent(d) + start_tag(id_name_chars(idx), no_attr()) + text_elem_chars(
            d + 1,
            "order"@,
            number_attr(),
            dec_chars(idx),
        ) + action_payload_chars(item, d + 1) + nl_indent(d) + end_tag(id_name_chars(idx)) == buf
            + action_item_chars(item, idx, d),
{
    broadcast use crate::xml::lemma_add_assoc_chars;

    reveal(parent_elem_chars);
}

/// A rendered action list covers all its items.
proof fn lemma_actions_take_all(items: Seq<ActionItem>)
    ensures
        items.take(items.len() as int) == items,
{
    assert(items.take(items.len() as int) =~= items);
}

/// A rendered damage-group list covers all its groups.
proof fn lemma_groups_take_all(gs: Seq<SpellDamage>)
    ensures
        gs.take(gs.len() as int) == gs,
{
    assert(gs.take(gs.len() as int) =~= gs);
}

/// Appending the four leading spell fields equals appending their group.
proof fn lemma_spell_body_a_append(buf: Seq<char>, s: SpellDefinition, d: nat)
    ensures
        buf + text_elem_chars(d, "castingtime"@, string_attr(), cast_time_chars(s.casting_time))
            + raw_elem_chars(
            d,
            "description"@,
            typed_attr("formattedtext"@),
            html_of(s.description@),
        ) + (match s.duration {
            Some(t) => text_elem_chars(d, "duration"@, string_attr(), t@),
            None => Seq::empty(),
        }) + text_elem_chars(d, "level"@, number_attr(), dec_chars(spell_level_num(s.spell_level)))
            == buf + spell_body_a(s, d),
{
    broadcast use crate::xml::lemma_add_assoc_chars;

}

/// Appending the six middle spell fields equals appending their group.
proof fn lemma_spell_body_b_append(buf: Seq<char>, s: SpellDefinition, d: nat)
    ensures
        buf + text_elem_chars(d, "locked"@, number_attr(), "1"@) + text_elem_chars(
            d,
            "name"@,
            string_attr(),
            s.name@,
        ) + text_elem_chars(d, "ritual"@, number_attr(), dec_chars(bool_num(s.is_ritual)))
            + text_elem_chars(d, "school"@, string_attr(), s.school@) + text_elem_chars(
            d,
            "prepared"@,
            number_attr(),
            dec_chars(bool_num(s.needs_preperation)),
        ) + (match s.short_description {
            Some(t) => text_elem_chars(d, "shortdescription"@, string_attr(), t@),
            None => Seq::empty(),
        }) == buf + spell_body_b(s, d),
{
    broadcast use crate::xml::lemma_add_assoc_chars;

}

/// Appending the three trailing spell fields equals appending their group.
proof fn lemma_spell_body_c_append(
    buf: Seq<char>,
    s: SpellDefinition,
    module_name: Seq<char>,
    d: nat,
)
    ensures
        buf + text_elem_chars(d, "group"@, string_attr(), s.group@) + text_elem_chars(
            d,
            "source"@,
            string_attr(),
            module_name,
        ) + actions_chars(s.actions, d) == buf + spell_body_c(s, module_name, d),
{
    broadcast use crate::xml::lemma_add_assoc_chars;

}

/// Appending the three field groups inside the spell's wrapper element
/// equals appending the whole spell element's rendering.
proof fn lemma_spell_chars_append(
    buf: Seq<char>,
    s: SpellDefinition,
    module_name: Seq<char>,
    d: nat,
)
    ensures
        buf + nl_indent(d) + start_tag(id_name_chars(s.id@ as nat), no_attr()) + spell_body_a(
            s,
            (d + 1) as nat,
        ) + spell_body_b(s, (d + 1) as nat) + spell_body_c(s, module_name, (d + 1) as nat)
            + nl_indent(d) + end_tag(id_name_chars(s.id@ as nat)) == buf + spell_chars(
            s,
            module_name,
            d,
        ),
{
    broadcast use crate::xml::lemma_add_assoc_chars;

    reveal(parent_elem_chars);
}

/// Rendering one more damage group appends exactly its element.
proof fn lemma_damage_groups_step(gs: Seq<SpellDamage>, j: int, d: nat)
    requires
        0 <= j < gs.len(),
    ensures
        damage_groups_chars(gs.take(j + 1), d) == damage_groups_chars(gs.take(j), d)
            + damage_group_chars(gs[j], (j + 1) as nat, d),
{
    assert(gs.take(j + 1).drop_last() =~= gs.take(j));
    assert(gs.take(j + 1).last() == gs[j]);
}

/// The comma-joined text of a dice list.
fn dice_text(dice: &Vec<Dice>) -> (s: String)
    ensures
        s@ == dice_list_chars(dice@),
{
    let mut s = String::new();
    let mut i: usize = 0;
    while i < dice.len()
        invariant
            i <= dice@.len(),
            s@ == dice_list_chars(dice@.take(i as int)),
        decreases dice@.len() - i,
    {
        if i > 0 {
            s.append(",");
        }
        let count_str = usize_dec(dice[i].count as usize);
        s.append(count_str.as_str());
        s.append(dice[i].dice_type.as_str());
        proof {
            assert(dice@.take(i + 1).drop_last() =~= dice@.take(i as int));
            assert(dice@.take(i + 1).last() == dice@[i as int]);
            assert(s@ =~= dice_list_chars(dice@.take(i + 1)));
        }
        i += 1;
    }
    proof {
        assert(dice@.take(dice@.len() as int) =~= dice@);
    }
    s
}

/// Emits the fields of one attack action.
fn process_attack(cast: &SpellRange, w: &mut XmlBuilder)
    ensures
        final(w).buf@ == old(w).buf@ + attack_chars(*cast, old(w).stack().len()),
        final(w).stack() == old(w).stack(),
{
    let ghost buf0 = w.buf@;
    let ghost d = w.stack().len();
    w.write_string("atktype", &string_attrs(), cast.range.to_xml().as_str());
    w.write_string("type", &string_attrs(), "cast");
    w.write_string("tknbutton", &type_attrs("tknbutton"), "");
    w.write_string("tknimg", &type_attrs("tknbutton"), "");
    proof {
        broadcast use crate::xml::lemma_add_assoc_chars;

        assert(w.buf@ =~= buf0 + attack_chars(*cast, d));
    }
}

/// Emits the fields of one save action.
fn process_save(cast: &SpellSave, w: &mut XmlBuilder)
    ensures
        final(w).buf@ == old(w).buf@ + save_chars(*cast, old(w).stack().len()),
        final(w).stack() == old(w).stack(),
{
    let ghost buf0 = w.buf@;
    let ghost d = w.stack().len();
    match &cast.save {
        ToSave::DC => {
            w.write_string("savedcmod", &number_attrs(), "0");
            w.write_string("savedcprof", &number_attrs(), "1");
        },
        ToSave::Fixed { value: _ } => {},
        ToSave::Ability(custom) => {
            w.write_string("savedcbase", &string_attrs(), "ability");
            w.write_string("savedcmod", &number_attrs(), usize_dec(custom.bonus as usize).as_str());
            w.write_string(
                "savedcprof",
                &number_attrs(),
                XmlBuilder::bool_dec(custom.is_proficient).as_str(),
            );
            let long = match &custom.stat {
                SpellStat::AbilityScore { ability } => ability.to_long_name(),
            };
            w.write_string("savedcstat", &string_attrs(), long.as_str());
        },
    }
    proof {
        broadcast use crate::xml::lemma_add_assoc_chars;

        assert(w.buf@ =~= buf0 + save_dc_chars(*cast, d));
    }
    w.write_string("savemagic", &number_attrs(), XmlBuilder::bool_dec(cast.is_magic).as_str());
    let long = match &cast.stat {
        SpellStat::AbilityScore { ability } => ability.to_long_name(),
    };
    w.write_string("savetype", &string_attrs(), long.as_str());
    w.write_string("tknbutton", &type_attrs("tknbutton"), "");
    w.write_string("tknimg", &type_attrs("tknbutton"), "");
    w.write_string("type", &string_attrs(), "cast");
    proof {
        broadcast use crate::xml::lemma_add_assoc_chars;

        assert(w.buf@ =~= buf0 + save_chars(*cast, d));
    }
}

/// Emits the fields of one effect action.
fn process_effect(effect: &SpellEffect, w: &mut XmlBuilder)
    ensures
        final(w).buf@ == old(w).buf@ + effect_chars(*effect, old(w).stack().len()),
        final(w).stack() == old(w).stack(),
{
    let ghost buf0 = w.buf@;
    let ghost d = w.stack().len();
    if effect.targets_self {
        w.write_string("targeting", &string_attrs(), "self");
    }
    w.write_string("type", &string_attrs(), "effect");
    w.write_string("label", &string_attrs(), effect.effect.as_str());
    match &effect.duration {
        SpellEffectDuration::Finite(f) => {
            let unit = match f.unit {
                TimeUnit::Minute => "minute",
                TimeUnit::Hour => "hour",
                TimeUnit::Round => "round",
            };
            w.write_string("durunit", &string_attrs(), unit);
            w.write_string("durmod", &number_attrs(), usize_dec(f.count as usize).as_str());
        },
        SpellEffectDuration::Indefinite => {},
    }
    proof {
        broadcast use crate::xml::lemma_add_assoc_chars;

        assert(w.buf@ =~= buf0 + effect_chars(*effect, d));
    }
}

/// Emits the fields of one damage action: its grouped damage list, each
/// group locally numbered from 1.
fn process_damage(action_damage: &ActionDamage, w: &mut XmlBuilder)
    ensures
        final(w).buf@ == old(w).buf@ + damage_chars(*action_damage, old(w).stack().len()),
        final(w).stack() == old(w).stack(),
{
    let ghost buf0 = w.buf@;
    let ghost d = w.stack().len();
    w.write_string("type", &string_attrs(), "damage");
    w.start_child("damagelist", &no_attrs());
    let ghost list0 = w.buf@;
    let groups = &action_damage.damage;
    let mut j: usize = 0;
    while j < groups.len()
        invariant
            j <= groups@.len(),
            groups@ == action_damage.damage@,
            w.buf@ == list0 + damage_groups_chars(groups@.take(j as int), d + 1),
            w.stack().len() == d + 1,
            w.stack() == old(w).stack().push("damagelist"@),
        decreases groups@.len() - j,
    {
        let ghost pre = w.buf@;
        let dmg = &groups[j];
        let dmg_id = id_name(j + 1);
        w.start_child(dmg_id.as_str(), &no_attrs());
        w.write_string("type", &string_attrs(), dmg.damage_type.as_str());
        let dice_list = dice_text(&dmg.dice);
        w.write_string("dice", &type_attrs("dice"), dice_list.as_str());
        let ghost after_dice = w.buf@;
        match &dmg.modifier {
            DamageModifier::AbilityScore { ability } => {
                w.write_string("stat", &string_attrs(), ability.to_long_name().as_str());
            },
            DamageModifier::NoModifier => {},
        }
        w.end_child();
        proof {
            crate::xml::lemma_add_empty_chars(after_dice);
            lemma_damage_group_append(pre, groups@[j as int], (j + 1) as nat, (d + 1) as nat);
            assert(w.buf@ == pre + damage_group_chars(groups@[j as int], (j + 1) as nat, d + 1));
            lemma_damage_groups_step(groups@, j as int, (d + 1) as nat);
            vstd::seq_lib::lemma_concat_associative(
                list0,
                damage_groups_chars(groups@.take(j as int), (d + 1) as nat),
                damage_group_chars(groups@[j as int], (j + 1) as nat, (d + 1) as nat),
            );
            assert(w.buf@ == list0 + damage_groups_chars(groups@.take(j + 1), d + 1));
        }
        j += 1;
    }
    proof {
        lemma_groups_take_all(groups@);
    }
    w.end_child();
    proof {
        lemma_damage_chars_append(buf0, *action_damage, d);
        assert(w.buf@ == buf0 + damage_chars(*action_damage, d));
        crate::xml::lemma_push_drop_last(old(w).stack(), "damagelist"@);
        assert(w.stack() == old(w).stack());
    }
}

/// Emits one whole action element: its index-named wrapper, its explicit
/// order, then its category-specific fields.
fn process_action_attack(idx: usize, a: &SpellRange, w: &mut XmlBuilder)
    requires
        idx >= 1,
    ensures
        final(w).buf@ == old(w).buf@ + action_item_chars(
            ActionItem::Attack(*a),
            idx as nat,
            old(w).stack().len(),
        ),
        final(w).stack() == old(w).stack(),
{
    let ghost buf0 = w.buf@;
    let ghost d = w.stack().len();
    let id = id_name(idx);
    w.start_child(id.as_str(), &no_attrs());
    w.write_string("order", &number_attrs(), usize_dec(idx).as_str());
    process_attack(a, w);
    w.end_child();
    proof {
        lemma_action_item_append(buf0, ActionItem::Attack(*a), idx as nat, d);
        assert(w.buf@ == buf0 + action_item_chars(ActionItem::Attack(*a), idx as nat, d));
        crate::xml::lemma_push_drop_last(old(w).stack(), id@);
        assert(w.stack() == old(w).stack());
    }
}

/// The save counterpart of the attack action emitter.
fn process_action_save(idx: usize, s: &SpellSave, w: &mut XmlBuilder)
    requires
        idx >= 1,
    ensures
        final(w).buf@ == old(w).buf@ + action_item_chars(
            ActionItem::Save(*s),
            idx as nat,
            old(w).stack().len(),
        ),
        final(w).stack() == old(w).stack(),
{
    let ghost buf0 = w.buf@;
    let ghost d = w.stack().len();
    let id = id_name(idx);
    w.start_child(id.as_str(), &no_attrs());
    w.write_string("order", &number_attrs(), usize_dec(idx).as_str());
    process_save(s, w);
    w.end_child();
    proof {
        lemma_action_item_append(buf0, ActionItem::Save(*s), idx as nat, d);
        assert(w.buf@ == buf0 + action_item_chars(ActionItem::Save(*s), idx as nat, d));
        crate::xml::lemma_push_drop_last(old(w).stack(), id@);
        assert(w.stack() == old(w).stack());
    }
}

/// The damage counterpart of the attack action emitter.
fn process_action_damage(idx: usize, g: &ActionDamage, w: &mut XmlBuilder)
    requires
        idx >= 1,
    ensures
        final(w).buf@ == old(w).buf@ + action_item_chars(
            ActionItem::Damage(*g),
            idx as nat,
            old(w).stack().len(),
        ),
        final(w).stack() == old(w).stack(),
{
    let ghost buf0 = w.buf@;
    let ghost d = w.stack().len();
    let id = id_name(idx);
    w.start_child(id.as_str(), &no_attrs());
    w.write_string("order", &number_attrs(), usize_dec(idx).as_str());
    process_damage(g, w);
    w.end_child();
    proof {
        lemma_action_item_append(buf0, ActionItem::Damage(*g), idx as nat, d);
        assert(w.buf@ == buf0 + action_item_chars(ActionItem::Damage(*g), idx as nat, d));
        crate::xml::lemma_push_drop_last(old(w).stack(), id@);
        assert(w.stack() == old(w).stack());
    }
}

/// The effect counterpart of the attack action emitter.
fn process_action_effect(idx: usize, e: &SpellEffect, w: &mut XmlBuilder)
    requires
        idx >= 1,
    ensures
        final(w).buf@ == old(w).buf@ + action_item_chars(
            ActionItem::Effect(*e),
            idx as nat,
            old(w).stack().len(),
        ),
        final(w).stack() == old(w).stack(),
{
    let ghost buf0 = w.buf@;
    let ghost d = w.stack().len();
    let id = id_name(idx);
    w.start_child(id.as_str(), &no_attrs());
    w.write_string("order", &number_attrs(), usize_dec(idx).as_str());
    process_effect(e, w);
    w.end_child();
    proof {
        lemma_action_item_append(buf0, ActionItem::Effect(*e), idx as nat, d);
        assert(w.buf@ == buf0 + action_item_chars(ActionItem::Effect(*e), idx as nat, d));
        crate::xml::lemma_push_drop_last(old(w).stack(), id@);
        assert(w.stack() == old(w).stack());
    }
}

impl SpellDefinition {
    /// Emits this spell's whole element into the builder.
        #[verifier::rlimit(50)]
    pub fn process(&self, module: &ModuleDefinition, w: &mut XmlBuilder)
        requires
            actions_fit(self.actions),
        ensures
            final(w).buf@ == old(w).buf@ + spell_chars(
                *self,
                module.name@,
                old(w).stack().len(),
            ),
            final(w).stack() == old(w).stack(),
    {
        let ghost buf0 = w.buf@;
        let ghost d = w.stack().len();
        let id = id_name(self.id.get_id() as usize);
        w.start_child(id.as_str(), &no_attrs());
        let ghost open0 = w.buf@;
        self.casting_time(w);
        self.description(w);
        self.duration(w);
        self.spell_level(w);
        proof {
            broadcast use crate::xml::lemma_add_assoc_chars;

            assert(w.buf@ == open0 + spell_body_a(*self, (d + 1) as nat));
        }
        let ghost part_a = w.buf@;
        w.write_string("locked", &number_attrs(), "1");
        w.write_string("name", &string_attrs(), self.name.as_str());
        w.write_string("ritual", &number_attrs(), XmlBuilder::bool_dec(self.is_ritual).as_str());
        w.write_string("school", &string_attrs(), self.school.as_str());
        w.write_string(
            "prepared",
            &number_attrs(),
            XmlBuilder::bool_dec(self.needs_preperation).as_str(),
        );
        match &self.short_description {
            Some(short_description) => {
                w.write_string("shortdescription", &string_attrs(), short_description.as_str());
            },
            None => {},
        }
        proof {
            lemma_spell_body_b_append(part_a, *self, (d + 1) as nat);
            assert(w.buf@ == part_a + spell_body_b(*self, (d + 1) as nat));
        }
        let ghost part_b = w.buf@;
        w.write_string("group", &string_attrs(), self.group.as_str());
        w.write_string("source", &string_attrs(), module.name.as_str());
        self.actions(w);
        proof {
            lemma_spell_body_c_append(part_b, *self, module.name@, (d + 1) as nat);
            assert(w.buf@ == part_b + spell_body_c(*self, module.name@, (d + 1) as nat));
        }
        w.end_child();
        proof {
            lemma_spell_chars_append(buf0, *self, module.name@, d);
            assert(w.buf@ == buf0 + spell_chars(*self, module.name@, d));
            crate::xml::lemma_push_drop_last(old(w).stack(), id@);
            assert(w.stack() == old(w).stack());
        }
    }

    /// Emits the casting-time field.
    fn casting_time(&self, w: &mut XmlBuilder)
        ensures
            final(w).buf@ == old(w).buf@ + text_elem_chars(
                old(w).stack().len(),
                "castingtime"@,
                string_attr(),
                cast_time_chars(self.casting_time),
            ),
            final(w).stack() == old(w).stack(),
    {
        let casting_time = match &self.casting_time {
            SpellCastDuration::Reaction => String::from_str("1 reaction"),
            SpellCastDuration::BonusAction { count } => {
                let mut t = usize_dec(*count as usize);
                t.append(" bonus action");
                t
            },
            SpellCastDuration::Action { count } => {
                let mut t = usize_dec(*count as usize);
                t.append(" action");
                t
            },
            SpellCastDuration::Instant => String::from_str("instant"),
            SpellCastDuration::Forever => String::from_str("forever"),
        };
        w.write_string("castingtime", &string_attrs(), casting_time.as_str());
    }

    /// Emits the long description, converted to inline markup and wrapped
    /// as pre-rendered formatted text.
    fn description(&self, w: &mut XmlBuilder)
        ensures
            final(w).buf@ == old(w).buf@ + raw_elem_chars(
                old(w).stack().len(),
                "description"@,
                typed_attr("formattedtext"@),
                html_of(self.description@),
            ),
            final(w).stack() == old(w).stack(),
    {
        let description = to_html(self.description.as_str());
        w.write_raw("description", &type_attrs("formattedtext"), description.as_str());
    }

    /// Emits the optional free-text duration field.
    fn duration(&self, w: &mut XmlBuilder)
        ensures
            final(w).buf@ == old(w).buf@ + (match self.duration {
                Some(t) => text_elem_chars(old(w).stack().len(), "duration"@, string_attr(), t@),
                None => Seq::empty(),
            }),
            final(w).stack() == old(w).stack(),
    {
        match &self.duration {
            Some(duration) => {
                w.write_string("duration", &string_attrs(), duration.as_str());
            },
            None => {},
        }
    }

    /// Emits the numeric spell level.
    fn spell_level(&self, w: &mut XmlBuilder)
        ensures
            final(w).buf@ == old(w).buf@ + text_elem_chars(
                old(w).stack().len(),
                "level"@,
                number_attr(),
                dec_chars(spell_level_num(self.spell_level)),
            ),
            final(w).stack() == old(w).stack(),
    {
        let spell_level: u8 = match self.spell_level {
            SpellLevel::Cantrip => 0,
            SpellLevel::Level { number } => number,
        };
        w.write_string("level", &number_attrs(), usize_dec(spell_level as usize).as_str());
    }

    /// Emits the actions sub-tree: every action of the four categories in
    /// the fixed order, each numbered by the shared index.
    fn actions(&self, w: &mut XmlBuilder)
        requires
            actions_fit(self.actions),
        ensures
            final(w).buf@ == old(w).buf@ + actions_chars(self.actions, old(w).stack().len()),
            final(w).stack() == old(w).stack(),
    {
        let ghost buf0 = w.buf@;
        let ghost d = w.stack().len();
        w.start_child("actions", &no_attrs());
        let ghost list0 = w.buf@;
        proof {
            crate::xml::lemma_add_empty_chars(list0);
            assert(actions_list_chars(all_actions(self.actions).take(0), w.stack().len())
                == Seq::<char>::empty());
        }
        emit_attack_actions(&self.actions, w, Ghost(list0));
        let idx1 = self.actions.attacks.len() + 1;
        emit_save_actions(&self.actions, idx1, w, Ghost(list0));
        let idx2 = self.actions.attacks.len() + self.actions.saves.len() + 1;
        emit_damage_actions(&self.actions, idx2, w, Ghost(list0));
        let idx3 = self.actions.attacks.len() + self.actions.saves.len()
            + self.actions.damages.len() + 1;
        emit_effect_actions(&self.actions, idx3, w, Ghost(list0));
        w.end_child();
        proof {
            lemma_actions_chars_append(buf0, self.actions, d);
            assert(w.buf@ == buf0 + actions_chars(self.actions, d));
            crate::xml::lemma_push_drop_last(old(w).stack(), "actions"@);
            assert(w.stack() == old(w).stack());
        }
    }
}

/// Emits the attack actions, indexed from 1.
fn emit_attack_actions(acts: &SpellActions, w: &mut XmlBuilder, Ghost(list0): Ghost<Seq<char>>)
    requires
        actions_fit(*acts),
        old(w).buf@ == list0 + actions_list_chars(all_actions(*acts).take(0), old(
            w,
        ).stack().len()),
    ensures
        final(w).buf@ == list0 + actions_list_chars(
            all_actions(*acts).take(acts.attacks@.len() as int),
            old(w).stack().len(),
        ),
        final(w).stack() == old(w).stack(),
{
    let ghost items = all_actions(*acts);
    let ghost dd = w.stack().len();
    let ghost stack0 = w.stack();
    let mut i: usize = 0;
    while i < acts.attacks.len()
        invariant
            actions_fit(*acts),
            items == all_actions(*acts),
            i <= acts.attacks@.len(),
            w.buf@ == list0 + actions_list_chars(items.take(i as int), dd),
            w.stack() == stack0,
            dd == stack0.len(),
        decreases acts.attacks@.len() - i,
    {
        proof {
            lemma_action_order_contiguous(*acts, dd);
            assert(items[i as int] == ActionItem::Attack(acts.attacks@[i as int]));
        }
        process_action_attack(i + 1, &acts.attacks[i], w);
        proof {
            lemma_action_order_contiguous(*acts, dd);
            vstd::seq_lib::lemma_concat_associative(
                list0,
                actions_list_chars(items.take(i as int), dd),
                action_item_chars(items[i as int], (i + 1) as nat, dd),
            );
            assert(w.buf@ == list0 + actions_list_chars(items.take(i + 1), dd));
        }
        i += 1;
    }
}

/// Emits the save actions, indexed from `idx0`.
fn emit_save_actions(
    acts: &SpellActions,
    idx0: usize,
    w: &mut XmlBuilder,
    Ghost(list0): Ghost<Seq<char>>,
)
    requires
        actions_fit(*acts),
        idx0 == acts.attacks@.len() + 1,
        old(w).buf@ == list0 + actions_list_chars(
            all_actions(*acts).take(acts.attacks@.len() as int),
            old(w).stack().len(),
        ),
    ensures
        final(w).buf@ == list0 + actions_list_chars(
            all_actions(*acts).take((acts.attacks@.len() + acts.saves@.len()) as int),
            old(w).stack().len(),
        ),
        final(w).stack() == old(w).stack(),
{
    let ghost items = all_actions(*acts);
    let ghost dd = w.stack().len();
    let ghost stack0 = w.stack();
    let ghost base = acts.attacks@.len() as int;
    let mut i: usize = 0;
    while i < acts.saves.len()
        invariant
            actions_fit(*acts),
            items == all_actions(*acts),
            base == acts.attacks@.len(),
            idx0 == base + 1,
            i <= acts.saves@.len(),
            w.buf@ == list0 + actions_list_chars(items.take(base + i), dd),
            w.stack() == stack0,
            dd == stack0.len(),
        decreases acts.saves@.len() - i,
    {
        proof {
            lemma_action_order_contiguous(*acts, dd);
            assert(items[base + i] == ActionItem::Save(acts.saves@[i as int]));
        }
        process_action_save(idx0 + i, &acts.saves[i], w);
        proof {
            lemma_action_order_contiguous(*acts, dd);
            vstd::seq_lib::lemma_concat_associative(
                list0,
                actions_list_chars(items.take(base + i), dd),
                action_item_chars(items[base + i], (base + i + 1) as nat, dd),
            );
            assert(w.buf@ == list0 + actions_list_chars(items.take(base + i + 1), dd));
        }
        i += 1;
    }
}

/// Emits the damage actions, indexed from `idx0`.
fn emit_damage_actions(
    acts: &SpellActions,
    idx0: usize,
    w: &mut XmlBuilder,
    Ghost(list0): Ghost<Seq<char>>,
)
    requires
        actions_fit(*acts),
        idx0 == acts.attacks@.len() + acts.saves@.len() + 1,
        old(w).buf@ == list0 + actions_list_chars(
            all_actions(*acts).take((acts.attacks@.len() + acts.saves@.len()) as int),
            old(w).stack().len(),
        ),
    ensures
        final(w).buf@ == list0 + actions_list_chars(
            all_actions(*acts).take((acts.attacks@.len() + acts.saves@.len()
                + acts.damages@.len()) as int),
            old(w).stack().len(),
        ),
        final(w).stack() == old(w).stack(),
{
    let ghost items = all_actions(*acts);
    let ghost dd = w.stack().len();
    let ghost stack0 = w.stack();
    let ghost base = acts.attacks@.len() + acts.saves@.len() as int;
    let mut i: usize = 0;
    while i < acts.damages.len()
        invariant
            actions_fit(*acts),
            items == all_actions(*acts),
            base == acts.attacks@.len() + acts.saves@.len(),
            idx0 == base + 1,
            i <= acts.damages@.len(),
            w.buf@ == list0 + actions_list_chars(items.take(base + i), dd),
            w.stack() == stack0,
            dd == stack0.len(),
        decreases acts.damages@.len() - i,
    {
        proof {
            lemma_action_order_contiguous(*acts, dd);
            assert(items[base + i] == ActionItem::Damage(acts.damages@[i as int]));
        }
        process_action_damage(idx0 + i, &acts.damages[i], w);
        proof {
            lemma_action_order_contiguous(*acts, dd);
            vstd::seq_lib::lemma_concat_associative(
                list0,
                actions_list_chars(items.take(base + i), dd),
                action_item_chars(items[base + i], (base + i + 1) as nat, dd),
            );
            assert(w.buf@ == list0 + actions_list_chars(items.take(base + i + 1), dd));
        }
        i += 1;
    }
}

/// Emits the effect actions, indexed from `idx0`.
fn emit_effect_actions(
    acts: &SpellActions,
    idx0: usize,
    w: &mut XmlBuilder,
    Ghost(list0): Ghost<Seq<char>>,
)
    requires
        actions_fit(*acts),
        idx0 == acts.attacks@.len() + acts.saves@.len() + acts.damages@.len() + 1,
        old(w).buf@ == list0 + actions_list_chars(
            all_actions(*acts).take((acts.attacks@.len() + acts.saves@.len()
                + acts.damages@.len()) as int),
            old(w).stack().len(),
        ),
    ensures
        final(w).buf@ == list0 + actions_list_chars(
            all_actions(*acts),
            old(w).stack().len(),
        ),
        final(w).stack() == old(w).stack(),
{
    let ghost items = all_actions(*acts);
    let ghost dd = w.stack().len();
    let ghost stack0 = w.stack();
    let ghost base = acts.attacks@.len() + acts.saves@.len() + acts.damages@.len() as int;
    let mut i: usize = 0;
    while i < acts.effects.len()
        invariant
            actions_fit(*acts),
            items == all_actions(*acts),
            base == acts.attacks@.len() + acts.saves@.len() + acts.damages@.len(),
            idx0 == base + 1,
            i <= acts.effects@.len(),
            w.buf@ == list0 + actions_list_chars(items.take(base + i), dd),
            w.stack() == stack0,
            dd == stack0.len(),
        decreases acts.effects@.len() - i,
    {
        proof {
            lemma_action_order_contiguous(*acts, dd);
            assert(items[base + i] == ActionItem::Effect(acts.effects@[i as int]));
        }
        process_action_effect(idx0 + i, &acts.effects[i], w);
        proof {
            lemma_action_order_contiguous(*acts, dd);
            vstd::seq_lib::lemma_concat_associative(
                list0,
                actions_list_chars(items.take(base + i), dd),
                action_item_chars(items[base + i], (base + i + 1) as nat, dd),
            );
            assert(w.buf@ == list0 + actions_list_chars(items.take(base + i + 1), dd));
        }
        i += 1;
    }
    proof {
        lemma_action_order_contiguous(*acts, dd);
        lemma_actions_take_all(items);
    }
}

} // verus!
