//! Reading back what was written.
//!
//! The text that a rule is serialized to reads back as that rule. This is
//! shown in two steps: what the grammar reads is well formed (names are
//! names, preludes and values hold no delimiter and no white space at their
//! ends), and the text of what is well formed reads back as it.
use vstd::prelude::*;
use crate::properties::{declaration_css, declarations_css, DeclarationView};
use crate::stylesheets::grammar::{
    lemma_skip_bounds, lemma_trim_end_bounds, parse_declaration_list, parse_declarations,
    parse_keyframes, parse_one_rule, parse_rule, parse_rule_list, rule_head_type, skip,
    spec_in_class, spec_is_delimiter, spec_is_margin_box, spec_is_name_char, spec_is_whitespace,
    spec_permitted_in, trim_end, trimmed, CharClass,
};
use crate::stylesheets::keywords::{
    all_name_chars, has_keyword, keyword_name, lemma_keyword, lemma_margin_box_reads_as,
};
use crate::stylesheets::rule_parser::{insert_outcome, lemma_parsed_rule_has_head_type, prepend};
use crate::stylesheets::rule_view::{
    css_text, declaration_block_css, prelude_css, rules_css, spec_body_kind, style_body_css,
    BodyKind, RuleView,
};
use crate::stylesheets::{CssRuleType, CssRuleTypes};

verus! {

/// Whether the text can stand as a prelude or a value: it holds no delimiter
/// and neither starts nor ends with white space.
pub open spec fn is_text(text: Seq<char>) -> bool {
    &&& forall|i: int| 0 <= i < text.len() ==> !spec_is_delimiter(#[trigger] text[i])
    &&& text.len() > 0 ==> !spec_is_whitespace(text[0]) && !spec_is_whitespace(text[text.len() - 1])
}

/// Whether the text is a name: one or more name characters.
pub open spec fn is_name(text: Seq<char>) -> bool {
    &&& text.len() > 0
    &&& forall|i: int| 0 <= i < text.len() ==> spec_is_name_char(#[trigger] text[i])
}

/// Whether the declaration is one that the grammar reads: a name and a value
/// that is not empty.
pub open spec fn is_declaration(declaration: DeclarationView) -> bool {
    &&& is_name(declaration.name)
    &&& is_text(declaration.value)
    &&& declaration.value.len() > 0
}

/// Whether the declarations are ones that the grammar reads.
pub open spec fn are_declarations(declarations: Seq<DeclarationView>) -> bool {
    forall|i: int| 0 <= i < declarations.len() ==> is_declaration(#[trigger] declarations[i])
}

/// A scan stops at `to` where every character before it is of the class and
/// the one at it is not.
pub proof fn lemma_skip_to(s: Seq<char>, from: int, to: int, class: CharClass)
    requires
        0 <= from <= to <= s.len(),
        forall|i: int| from <= i < to ==> spec_in_class(class, #[trigger] s[i]),
        to < s.len() ==> !spec_in_class(class, s[to]),
    ensures
        skip(s, from, class) == to,
    decreases to - from,
{
    if from < to {
        lemma_skip_to(s, from + 1, to, class);
    }
}

/// Trimming stops at `end` where only white space follows up to `to` and
/// none stands before.
pub proof fn lemma_trim_end_to(s: Seq<char>, from: int, end: int, to: int)
    requires
        0 <= from <= end <= to <= s.len(),
        forall|i: int| end <= i < to ==> spec_is_whitespace(#[trigger] s[i]),
        end > from ==> !spec_is_whitespace(s[end - 1]),
    ensures
        trim_end(s, from, to) == end,
    decreases to - end,
{
    if end < to {
        lemma_trim_end_to(s, from, end, to - 1);
    }
}

/// Trimmed text ends with no white space.
pub proof fn lemma_trim_end_tight(s: Seq<char>, from: int, to: int)
    requires
        0 <= from <= to <= s.len(),
    ensures
        from <= trim_end(s, from, to) <= to,
        trim_end(s, from, to) > from ==> !spec_is_whitespace(s[trim_end(s, from, to) - 1]),
    decreases to - from,
{
    if from < to && spec_is_whitespace(s[to - 1]) {
        lemma_trim_end_tight(s, from, to - 1);
    }
}

/// What a run of text characters is trimmed to is text, where it starts
/// with no white space.
pub proof fn lemma_trimmed_is_text(s: Seq<char>, from: int, to: int)
    requires
        0 <= from <= to <= s.len(),
        forall|i: int| from <= i < to ==> !spec_is_delimiter(#[trigger] s[i]),
        from < s.len() ==> !spec_is_whitespace(s[from]),
    ensures
        is_text(trimmed(s, from, to)),
{
    lemma_trim_end_tight(s, from, to);
    let end = trim_end(s, from, to);
    let text = trimmed(s, from, to);
    assert forall|i: int| 0 <= i < text.len() implies !spec_is_delimiter(#[trigger] text[i]) by {
        assert(text[i] == s[from + i]);
    }
    if text.len() > 0 {
        assert(text[0] == s[from]);
        assert(text[text.len() - 1] == s[end - 1]);
    }
}

/// The declarations that the grammar reads are well formed, and it stops in
/// the text.
pub proof fn lemma_parsed_declarations(s: Seq<char>, from: int)
    requires
        0 <= from <= s.len(),
    ensures
        parse_declarations(s, from) matches Some((declarations, end)) ==> are_declarations(
            declarations,
        ) && from <= end <= s.len(),
    decreases s.len() - from,
{
    lemma_skip_bounds(s, from, CharClass::Whitespace);
    let start = skip(s, from, CharClass::Whitespace);
    if start >= s.len() || s[start] == '}' {
    } else if s[start] == ';' {
        lemma_parsed_declarations(s, start + 1);
    } else {
        lemma_skip_bounds(s, start, CharClass::Text);
        let stop = skip(s, start, CharClass::Text);
        if s[start] == '@' || (stop < s.len() && s[stop] == '{') {
        } else {
            lemma_skip_bounds(s, start, CharClass::Name);
            let name_end = skip(s, start, CharClass::Name);
            lemma_skip_bounds(s, name_end, CharClass::Whitespace);
            let colon = skip(s, name_end, CharClass::Whitespace);
            if colon < s.len() {
                lemma_skip_bounds(s, colon + 1, CharClass::Whitespace);
                let value_start = skip(s, colon + 1, CharClass::Whitespace);
                lemma_skip_bounds(s, value_start, CharClass::Text);
                let value_end = skip(s, value_start, CharClass::Text);
                let value = trimmed(s, value_start, value_end);
                let name = s.subrange(start, name_end);
                if parse_declarations(s, from) is Some {
                    let next = if value_end < s.len() && s[value_end] == ';' {
                        value_end + 1
                    } else {
                        value_end
                    };
                    lemma_parsed_declarations(s, next);
                    lemma_trimmed_is_text(s, value_start, value_end);
                    let declaration = DeclarationView { name, value };
                    assert(is_name(name)) by {
                        assert forall|i: int| 0 <= i < name.len() implies spec_is_name_char(
                            #[trigger] name[i],
                        ) by {
                            assert(name[i] == s[start + i]);
                        }
                    }
                    assert(is_declaration(declaration));
                    let rest = parse_declarations(s, next)->Some_0.0;
                    let all = seq![declaration] + rest;
                    assert forall|i: int| 0 <= i < all.len() implies is_declaration(
                        #[trigger] all[i],
                    ) by {
                        if i > 0 {
                            assert(all[i] == rest[i - 1]);
                        }
                    }
                }
            }
        }
    }
}

/// One declaration reads back: where the text of a declaration stands at
/// `start`, after nothing but white space from `from`, the grammar reads
/// that declaration and goes on behind it.
pub proof fn lemma_declaration_reads_back(
    s: Seq<char>,
    from: int,
    start: int,
    declaration: DeclarationView,
)
    requires
        is_declaration(declaration),
        0 <= from <= start,
        start + declaration_css(declaration).len() <= s.len(),
        forall|i: int| from <= i < start ==> spec_is_whitespace(#[trigger] s[i]),
        s.subrange(start, start + declaration_css(declaration).len()) == declaration_css(declaration),
    ensures
        parse_declarations(s, from) == prepend(
            seq![declaration],
            parse_declarations(s, start + declaration_css(declaration).len()),
        ),
        skip(s, from, CharClass::Whitespace) == start,
        spec_is_name_char(s[start]),
        skip(s, start, CharClass::Text) == start + declaration_css(declaration).len() - 1,
        s[start + declaration_css(declaration).len() - 1] == ';',
{
    reveal_strlit(": ");
    reveal_strlit(";");
    let name = declaration.name;
    let value = declaration.value;
    let n = name.len() as int;
    let m = value.len() as int;
    let text = declaration_css(declaration);
    let end = start + text.len();
    assert(text.len() == n + 2 + m + 1);
    assert forall|i: int| 0 <= i < text.len() implies s[start + i] == #[trigger] text[i] by {
        assert(s.subrange(start, end)[i] == s[start + i]);
    }
    assert forall|i: int| 0 <= i < n implies s[start + i] == #[trigger] name[i] by {
        assert(text[i] == name[i]);
    }
    assert(s[start + n] == ':') by {
        assert(text[n] == ':');
    }
    assert(s[start + n + 1] == ' ') by {
        assert(text[n + 1] == ' ');
    }
    assert forall|j: int| 0 <= j < m implies s[start + n + 2 + j] == #[trigger] value[j] by {
        assert(text[n + 2 + j] == value[j]);
    }
    assert(s[start + n + 2 + m] == ';') by {
        assert(text[n + 2 + m] == ';');
    }
    let value_start = start + n + 2;
    let value_end = value_start + m;

    assert(spec_is_name_char(s[start])) by {
        assert(s[start + 0] == name[0]);
    }
    lemma_skip_to(s, from, start, CharClass::Whitespace);
    assert forall|i: int| start <= i < value_end implies spec_in_class(
        CharClass::Text,
        #[trigger] s[i],
    ) by {
        if i < start + n {
            assert(s[start + (i - start)] == name[i - start]);
        } else if i >= value_start {
            assert(s[start + n + 2 + (i - value_start)] == value[i - value_start]);
        }
    }
    lemma_skip_to(s, start, value_end, CharClass::Text);
    assert forall|i: int| start <= i < start + n implies spec_in_class(
        CharClass::Name,
        #[trigger] s[i],
    ) by {
        assert(s[start + (i - start)] == name[i - start]);
    }
    lemma_skip_to(s, start, start + n, CharClass::Name);
    lemma_skip_to(s, start + n, start + n, CharClass::Whitespace);
    assert(!spec_is_whitespace(s[value_start])) by {
        assert(s[start + n + 2 + 0] == value[0]);
    }
    lemma_skip_to(s, start + n + 1, value_start, CharClass::Whitespace);
    assert forall|i: int| value_start <= i < value_end implies spec_in_class(
        CharClass::Text,
        #[trigger] s[i],
    ) by {
        assert(s[start + n + 2 + (i - value_start)] == value[i - value_start]);
    }
    lemma_skip_to(s, value_start, value_end, CharClass::Text);
    assert(!spec_is_whitespace(s[value_end - 1])) by {
        assert(s[start + n + 2 + (m - 1)] == value[m - 1]);
    }
    lemma_trim_end_to(s, value_start, value_end, value_end);
    assert(trimmed(s, value_start, value_end) =~= value);
    assert(s.subrange(start, start + n) =~= name);
    assert(declaration == DeclarationView { name, value });
}

/// Declarations read back: where the text of well-formed declarations
/// stands from `from` up to `to`, the grammar reads those declarations and
/// goes on at `to`.
pub proof fn lemma_declarations_read_back(
    s: Seq<char>,
    from: int,
    declarations: Seq<DeclarationView>,
)
    requires
        are_declarations(declarations),
        0 <= from,
        from + declarations_css(declarations).len() <= s.len(),
        s.subrange(from, from + declarations_css(declarations).len()) == declarations_css(
            declarations,
        ),
    ensures
        parse_declarations(s, from) == prepend(
            declarations,
            parse_declarations(s, from + declarations_css(declarations).len()),
        ),
    decreases declarations.len(),
{
    reveal_strlit(" ");
    let text = declarations_css(declarations);
    let to = from + text.len();
    let after = parse_declarations(s, to);
    if declarations.len() == 0 {
        if let Some((items, end)) = after {
            assert(declarations + items =~= items);
        }
    } else if declarations.len() == 1 {
        let last = declarations[0];
        lemma_declaration_reads_back(s, from, from, last);
        assert(declarations =~= seq![last]);
    } else {
        let front = declarations.drop_last();
        let last = declarations.last();
        let front_text = declarations_css(front);
        let last_text = declaration_css(last);
        let middle = from + front_text.len();
        assert(text == front_text + " "@ + last_text);
        assert(s.subrange(from, middle) =~= front_text) by {
            assert(s.subrange(from, middle) =~= s.subrange(from, to).subrange(0, front_text.len() as int));
        }
        assert(s.subrange(middle + 1, to) =~= last_text) by {
            assert(s.subrange(middle + 1, to) =~= s.subrange(from, to).subrange(
                front_text.len() as int + 1,
                text.len() as int,
            ));
        }
        assert(s[middle] == ' ') by {
            assert(s.subrange(from, to)[front_text.len() as int] == s[middle]);
            assert(text[front_text.len() as int] == ' ');
        }
        lemma_declarations_read_back(s, from, front);
        lemma_declaration_reads_back(s, middle, middle + 1, last);
        let rest = parse_declarations(s, to);
        if let Some((items, end)) = rest {
            assert(front + (seq![last] + items) =~= declarations + items) by {
                assert(front + seq![last] =~= declarations);
            }
        }
    }
}

/// A list of declarations reads back.
///
/// The declarations that the grammar reads from a text that is nothing but
/// declarations are read again from the text that they are serialized to.
pub proof fn lemma_declaration_list_round_trip(s: Seq<char>)
    ensures
        parse_declaration_list(declarations_css(parse_declaration_list(s))) == parse_declaration_list(
            s,
        ),
{
    let declarations = parse_declaration_list(s);
    let text = declarations_css(declarations);
    lemma_parsed_declarations(s, 0);
    assert(are_declarations(declarations));
    assert(text.subrange(0, text.len() as int) =~= text);
    lemma_declarations_read_back(text, 0, declarations);
    lemma_skip_to(text, text.len() as int, text.len() as int, CharClass::Whitespace);
    assert(declarations + Seq::<DeclarationView>::empty() =~= declarations);
}

/// Whether the view is that of a keyframe that the grammar reads.
pub open spec fn is_keyframe(keyframe: RuleView) -> bool {
    &&& keyframe.rule_type == CssRuleType::Keyframe
    &&& is_text(keyframe.prelude)
    &&& keyframe.prelude.len() > 0
    &&& are_declarations(keyframe.block)
    &&& keyframe.rules is None
}

/// Whether the views are those of keyframes that the grammar reads.
pub open spec fn are_keyframes(keyframes: Seq<RuleView>) -> bool {
    forall|i: int| 0 <= i < keyframes.len() ==> is_keyframe(#[trigger] keyframes[i])
}

/// Whether the view is that of a rule that the grammar reads inside rules of
/// the types in `containing`: its prelude is text, its declarations are
/// declarations, it holds what a rule of its type holds, and the rules nested
/// in it are such rules that are permitted there.
pub open spec fn is_rule(rule: RuleView, containing: CssRuleTypes) -> bool
    decreases rule,
{
    &&& are_declarations(rule.block)
    &&& match spec_body_kind(rule.rule_type) {
        BodyKind::Statement => is_text(rule.prelude) && rule.block.len() == 0 && rule.rules is None,
        BodyKind::Rules => is_text(rule.prelude) && rule.block.len() == 0 && match rule.rules {
            Some(nested) => are_rules(nested, containing.spec_with(rule.rule_type)),
            None => false,
        },
        BodyKind::Keyframes => is_text(rule.prelude) && rule.block.len() == 0 && match rule.rules {
            Some(keyframes) => are_keyframes(keyframes),
            None => false,
        },
        BodyKind::Declarations => rule.rules is None && match rule.rule_type {
            CssRuleType::Keyframe => false,
            CssRuleType::Margin => spec_is_margin_box(rule.prelude),
            _ => is_text(rule.prelude),
        },
        BodyKind::DeclarationsAndRules => is_text(rule.prelude) && (rule.rule_type
            == CssRuleType::Style ==> rule.prelude.len() > 0 && rule.prelude[0] != '@')
            && match rule.rules {
            Some(nested) => nested.len() > 0 && are_rules(
                nested,
                containing.spec_with(rule.rule_type),
            ),
            None => true,
        },
        BodyKind::Bare => false,
    }
}

/// Whether the views are those of rules that the grammar reads, and that are
/// permitted, inside rules of the types in `containing`.
pub open spec fn are_rules(rules: Seq<RuleView>, containing: CssRuleTypes) -> bool
    decreases rules,
{
    forall|i: int|
        0 <= i < rules.len() ==> is_rule(#[trigger] rules[i], containing) && spec_permitted_in(
            containing,
            rules[i].rule_type,
        )
}

/// Text that stands in `s` at `at` is made of the texts of its parts, one
/// after the other.
pub proof fn lemma_split(s: Seq<char>, at: int, first: Seq<char>, second: Seq<char>)
    requires
        0 <= at,
        at + first.len() + second.len() <= s.len(),
        s.subrange(at, at + first.len() + second.len()) == first + second,
    ensures
        s.subrange(at, at + first.len()) == first,
        s.subrange(at + first.len(), at + first.len() + second.len()) == second,
{
    let whole = s.subrange(at, at + first.len() + second.len());
    assert(s.subrange(at, at + first.len()) =~= whole.subrange(0, first.len() as int));
    assert(whole.subrange(0, first.len() as int) =~= first);
    assert(s.subrange(at + first.len(), at + first.len() + second.len()) =~= whole.subrange(
        first.len() as int,
        first.len() as int + second.len(),
    ));
    assert(whole.subrange(first.len() as int, first.len() as int + second.len()) =~= second);
}

/// The character of `s` at a position inside text that stands in `s`.
pub proof fn lemma_char_at(s: Seq<char>, at: int, text: Seq<char>, i: int)
    requires
        0 <= at,
        at + text.len() <= s.len(),
        s.subrange(at, at + text.len()) == text,
        0 <= i < text.len(),
    ensures
        s[at + i] == text[i],
{
    assert(s.subrange(at, at + text.len())[i] == s[at + i]);
}

/// The head of an at-rule, up to the brace or semicolon that ends it: `@`,
/// the name, the prelude behind a space, and a space before a brace.
pub open spec fn at_rule_head(name: Seq<char>, prelude: Seq<char>, block: bool) -> Seq<char> {
    seq!['@'] + name + prelude_css(prelude) + if block {
        seq![' ', '{']
    } else {
        seq![';']
    }
}

/// How the grammar scans the head of an at-rule that stands at `at`.
pub proof fn lemma_at_rule_head(s: Seq<char>, at: int, name: Seq<char>, prelude: Seq<char>, block: bool)
    requires
        name.len() > 0,
        all_name_chars(name),
        is_text(prelude),
        0 <= at,
        at + at_rule_head(name, prelude, block).len() <= s.len(),
        s.subrange(at, at + at_rule_head(name, prelude, block).len()) == at_rule_head(
            name,
            prelude,
            block,
        ),
    ensures
        skip(s, at, CharClass::Whitespace) == at,
        s[at] == '@',
        skip(s, at + 1, CharClass::Name) == at + 1 + name.len(),
        s.subrange(at + 1, at + 1 + name.len()) == name,
        skip(s, skip(s, at + 1 + name.len(), CharClass::Whitespace), CharClass::Text) == at
            + at_rule_head(name, prelude, block).len() - 1,
        s[at + at_rule_head(name, prelude, block).len() - 1] == if block {
            '{'
        } else {
            ';'
        },
        trimmed(
            s,
            skip(s, at + 1 + name.len(), CharClass::Whitespace),
            at + at_rule_head(name, prelude, block).len() - 1,
        ) == prelude,
{
    reveal_strlit(" ");
    let head = at_rule_head(name, prelude, block);
    let n = name.len() as int;
    let m = prelude.len() as int;
    let name_end = at + 1 + n;
    let stop = at + head.len() - 1;
    assert forall|i: int| 0 <= i < head.len() implies s[at + i] == #[trigger] head[i] by {
        lemma_char_at(s, at, head, i);
    }
    assert(s[at] == '@') by {
        assert(head[0] == '@');
    }
    assert forall|i: int| 0 <= i < n implies s[at + 1 + i] == #[trigger] name[i] by {
        assert(head[1 + i] == name[i]);
    }
    lemma_skip_to(s, at, at, CharClass::Whitespace);
    assert(s.subrange(at + 1, name_end) =~= name);
    if m > 0 {
        assert(head.len() == 1 + n + 1 + m + if block { 2int } else { 1int });
        assert(s[name_end] == ' ') by {
            assert(head[1 + n] == ' ');
        }
        assert forall|j: int| 0 <= j < m implies s[name_end + 1 + j] == #[trigger] prelude[j] by {
            assert(head[1 + n + 1 + j] == prelude[j]);
        }
        assert forall|i: int| at + 1 <= i < name_end implies spec_in_class(
            CharClass::Name,
            #[trigger] s[i],
        ) by {
            assert(s[at + 1 + (i - at - 1)] == name[i - at - 1]);
        }
        lemma_skip_to(s, at + 1, name_end, CharClass::Name);
        assert(!spec_is_whitespace(s[name_end + 1])) by {
            assert(s[name_end + 1 + 0] == prelude[0]);
        }
        lemma_skip_to(s, name_end, name_end + 1, CharClass::Whitespace);
        let prelude_start = name_end + 1;
        let prelude_end = prelude_start + m;
        assert(!spec_is_whitespace(s[prelude_end - 1])) by {
            assert(s[name_end + 1 + (m - 1)] == prelude[m - 1]);
        }
        if block {
            assert(s[prelude_end] == ' ') by {
                assert(head[1 + n + 1 + m] == ' ');
            }
            assert(s[prelude_end + 1] == '{') by {
                assert(head[1 + n + 1 + m + 1] == '{');
            }
            assert(stop == prelude_end + 1);
        } else {
            assert(s[prelude_end] == ';') by {
                assert(head[1 + n + 1 + m] == ';');
            }
            assert(stop == prelude_end);
        }
        assert forall|i: int| prelude_start <= i < stop implies spec_in_class(
            CharClass::Text,
            #[trigger] s[i],
        ) by {
            if i < prelude_end {
                assert(s[name_end + 1 + (i - prelude_start)] == prelude[i - prelude_start]);
            }
        }
        lemma_skip_to(s, prelude_start, stop, CharClass::Text);
        lemma_trim_end_to(s, prelude_start, prelude_end, stop);
        assert(trimmed(s, prelude_start, stop) =~= prelude);
    } else {
        assert(prelude_css(prelude) =~= Seq::<char>::empty());
        assert(head.len() == 1 + n + if block { 2int } else { 1int });
        assert forall|i: int| at + 1 <= i < name_end implies spec_in_class(
            CharClass::Name,
            #[trigger] s[i],
        ) by {
            assert(s[at + 1 + (i - at - 1)] == name[i - at - 1]);
        }
        if block {
            assert(s[name_end] == ' ') by {
                assert(head[1 + n] == ' ');
            }
            assert(s[name_end + 1] == '{') by {
                assert(head[1 + n + 1] == '{');
            }
            lemma_skip_to(s, at + 1, name_end, CharClass::Name);
            lemma_skip_to(s, name_end, name_end + 1, CharClass::Whitespace);
            lemma_skip_to(s, name_end + 1, name_end + 1, CharClass::Text);
            lemma_trim_end_to(s, name_end + 1, name_end + 1, name_end + 1);
            assert(trimmed(s, name_end + 1, stop) =~= prelude);
        } else {
            assert(s[name_end] == ';') by {
                assert(head[1 + n] == ';');
            }
            lemma_skip_to(s, at + 1, name_end, CharClass::Name);
            lemma_skip_to(s, name_end, name_end, CharClass::Whitespace);
            lemma_skip_to(s, name_end, name_end, CharClass::Text);
            lemma_trim_end_to(s, name_end, name_end, name_end);
            assert(trimmed(s, name_end, stop) =~= prelude);
        }
    }
}

/// The head of a style rule, up to its brace: the selectors, a space and the
/// brace.
pub open spec fn style_rule_head(selectors: Seq<char>) -> Seq<char> {
    selectors + seq![' ', '{']
}

/// How the grammar scans the head of a style rule that stands at `at`.
pub proof fn lemma_style_rule_head(s: Seq<char>, at: int, selectors: Seq<char>)
    requires
        is_text(selectors),
        selectors.len() > 0,
        selectors[0] != '@',
        0 <= at,
        at + style_rule_head(selectors).len() <= s.len(),
        s.subrange(at, at + style_rule_head(selectors).len()) == style_rule_head(selectors),
    ensures
        skip(s, at, CharClass::Whitespace) == at,
        s[at] != '@',
        s[at] != '}',
        s[at] != ';',
        skip(s, at, CharClass::Text) == at + selectors.len() + 1,
        s[at + selectors.len() + 1] == '{',
        trimmed(s, at, at + selectors.len() + 1) == selectors,
{
    lemma_selector_head(s, at, selectors);
}

/// A scan that starts inside a run of characters of its class stops where
/// the scan from the start of the run stops.
pub proof fn lemma_skip_join(s: Seq<char>, from: int, to: int, class: CharClass)
    requires
        0 <= from <= to <= s.len(),
        forall|i: int| from <= i < to ==> spec_in_class(class, #[trigger] s[i]),
    ensures
        skip(s, from, class) == skip(s, to, class),
    decreases to - from,
{
    if from < to {
        lemma_skip_join(s, from + 1, to, class);
    }
}

/// White space before declarations makes no difference.
pub proof fn lemma_declarations_after_space(s: Seq<char>, from: int, to: int)
    requires
        0 <= from <= to <= s.len(),
        forall|i: int| from <= i < to ==> spec_is_whitespace(#[trigger] s[i]),
    ensures
        parse_declarations(s, from) == parse_declarations(s, to),
{
    lemma_skip_join(s, from, to, CharClass::Whitespace);
    lemma_skip_bounds(s, to, CharClass::Whitespace);
}

/// White space before rules makes no difference.
pub proof fn lemma_rule_list_after_space(s: Seq<char>, from: int, to: int, containing: CssRuleTypes)
    requires
        0 <= from <= to <= s.len(),
        forall|i: int| from <= i < to ==> spec_is_whitespace(#[trigger] s[i]),
    ensures
        parse_rule_list(s, from, containing) == parse_rule_list(s, to, containing),
{
    lemma_skip_join(s, from, to, CharClass::Whitespace);
    lemma_skip_bounds(s, to, CharClass::Whitespace);
}

/// White space before keyframes makes no difference.
pub proof fn lemma_keyframes_after_space(s: Seq<char>, from: int, to: int)
    requires
        0 <= from <= to <= s.len(),
        forall|i: int| from <= i < to ==> spec_is_whitespace(#[trigger] s[i]),
    ensures
        parse_keyframes(s, from) == parse_keyframes(s, to),
{
    lemma_skip_join(s, from, to, CharClass::Whitespace);
    lemma_skip_bounds(s, to, CharClass::Whitespace);
}

/// What follows the opening brace of a block of declarations: the
/// declarations between two spaces and the closing brace, or a space and the
/// closing brace.
pub open spec fn declarations_body(block: Seq<DeclarationView>) -> Seq<char> {
    if block.len() > 0 {
        seq![' '] + declarations_css(block) + seq![' ', '}']
    } else {
        seq![' ', '}']
    }
}

/// The body of a block of declarations reads back: the grammar reads the
/// declarations and stops at the closing brace.
pub proof fn lemma_declarations_body_reads_back(s: Seq<char>, at: int, block: Seq<DeclarationView>)
    requires
        are_declarations(block),
        0 <= at,
        at + declarations_body(block).len() <= s.len(),
        s.subrange(at, at + declarations_body(block).len()) == declarations_body(block),
    ensures
        parse_declarations(s, at) == Some((block, at + declarations_body(block).len() - 1)),
        s[at + declarations_body(block).len() - 1] == '}',
{
    let body = declarations_body(block);
    let close = at + body.len() - 1;
    assert forall|i: int| 0 <= i < body.len() implies s[at + i] == #[trigger] body[i] by {
        lemma_char_at(s, at, body, i);
    }
    if block.len() > 0 {
        let text = declarations_css(block);
        let n = text.len() as int;
        assert(body.len() == 1 + n + 2);
        assert(s[at] == ' ') by {
            assert(body[0] == ' ');
        }
        assert(s[close - 1] == ' ') by {
            assert(body[1 + n] == ' ');
        }
        assert(s[close] == '}') by {
            assert(body[1 + n + 1] == '}');
        }
        lemma_split(s, at, seq![' '] + text, seq![' ', '}']);
        lemma_split(s, at, seq![' '], text);
        lemma_declarations_after_space(s, at, at + 1);
        lemma_declarations_read_back(s, at + 1, block);
        lemma_skip_to(s, close - 1, close, CharClass::Whitespace);
        assert(parse_declarations(s, close - 1) == Some((Seq::<DeclarationView>::empty(), close)));
        assert(block + Seq::<DeclarationView>::empty() =~= block);
    } else {
        assert(s[at] == ' ') by {
            assert(body[0] == ' ');
        }
        assert(s[at + 1] == '}') by {
            assert(body[1] == '}');
        }
        lemma_skip_to(s, at, at + 1, CharClass::Whitespace);
        assert(block =~= Seq::<DeclarationView>::empty());
    }
}

/// The text of a keyframe: its selector and its block.
pub open spec fn keyframe_text(keyframe: RuleView) -> Seq<char> {
    style_rule_head(keyframe.prelude) + declarations_body(keyframe.block)
}

/// One line of a block of rules: a line feed, two spaces and the text.
pub open spec fn line(text: Seq<char>) -> Seq<char> {
    seq!['\n', ' ', ' '] + text
}

/// How the grammar scans a selector and the brace behind it, which stand
/// at `at`.
pub proof fn lemma_selector_head(s: Seq<char>, at: int, selector: Seq<char>)
    requires
        is_text(selector),
        selector.len() > 0,
        0 <= at,
        at + style_rule_head(selector).len() <= s.len(),
        s.subrange(at, at + style_rule_head(selector).len()) == style_rule_head(selector),
    ensures
        skip(s, at, CharClass::Whitespace) == at,
        s[at] == selector[0],
        skip(s, at, CharClass::Text) == at + selector.len() + 1,
        s[at + selector.len() + 1] == '{',
        trimmed(s, at, at + selector.len() + 1) == selector,
{
    let head = style_rule_head(selector);
    let m = selector.len() as int;
    assert forall|i: int| 0 <= i < head.len() implies s[at + i] == #[trigger] head[i] by {
        lemma_char_at(s, at, head, i);
    }
    assert forall|j: int| 0 <= j < m implies s[at + j] == #[trigger] selector[j] by {
        assert(head[j] == selector[j]);
    }
    assert(s[at] == selector[0]) by {
        assert(s[at + 0] == selector[0]);
    }
    assert(s[at + m] == ' ') by {
        assert(head[m] == ' ');
    }
    assert(s[at + m + 1] == '{') by {
        assert(head[m + 1] == '{');
    }
    assert(!spec_is_whitespace(s[at + m - 1])) by {
        assert(s[at + (m - 1)] == selector[m - 1]);
    }
    lemma_skip_to(s, at, at, CharClass::Whitespace);
    assert forall|i: int| at <= i < at + m + 1 implies spec_in_class(CharClass::Text, #[trigger] s[i]) by {
        if i < at + m {
            assert(s[at + (i - at)] == selector[i - at]);
        }
    }
    lemma_skip_to(s, at, at + m + 1, CharClass::Text);
    lemma_trim_end_to(s, at, at + m, at + m + 1);
    assert(trimmed(s, at, at + m + 1) =~= selector);
}

/// One keyframe reads back: where the line of a keyframe stands at `at`, the
/// grammar reads that keyframe and goes on behind it.
pub proof fn lemma_keyframe_reads_back(s: Seq<char>, at: int, keyframe: RuleView)
    requires
        is_keyframe(keyframe),
        0 <= at,
        at + line(keyframe_text(keyframe)).len() <= s.len(),
        s.subrange(at, at + line(keyframe_text(keyframe)).len()) == line(keyframe_text(keyframe)),
    ensures
        parse_keyframes(s, at) == prepend(
            seq![keyframe],
            parse_keyframes(s, at + line(keyframe_text(keyframe)).len()),
        ),
{
    let text = keyframe_text(keyframe);
    let head = style_rule_head(keyframe.prelude);
    let body = declarations_body(keyframe.block);
    let whole = line(text);
    let start = at + 3;
    assert forall|i: int| 0 <= i < 3 implies spec_is_whitespace(#[trigger] s[at + i]) by {
        lemma_char_at(s, at, whole, i);
    }
    assert forall|i: int| at <= i < start implies spec_is_whitespace(#[trigger] s[i]) by {
        assert(s[at + (i - at)] == s[i]);
    }
    lemma_split(s, at, seq!['\n', ' ', ' '], text);
    lemma_split(s, start, head, body);
    lemma_selector_head(s, start, keyframe.prelude);
    lemma_keyframes_after_space(s, at, start);
    lemma_declarations_body_reads_back(s, start + head.len(), keyframe.block);
    assert(keyframe == RuleView {
        rule_type: CssRuleType::Keyframe,
        prelude: keyframe.prelude,
        block: keyframe.block,
        rules: None,
    });
}

/// What follows the opening brace of a block of rules: the rules, each on
/// a line, and the closing brace on a line of its own.
pub open spec fn rules_body(rules: Seq<RuleView>) -> Seq<char> {
    rules_css(rules) + seq!['\n', '}']
}

/// What follows the opening brace of a style or page rule.
pub open spec fn style_body(block: Seq<DeclarationView>, rules: Option<Seq<RuleView>>) -> Seq<char> {
    match rules {
        Some(nested) if nested.len() > 0 => {
            if block.len() > 0 {
                line(declarations_css(block)) + rules_body(nested)
            } else {
                rules_body(nested)
            }
        },
        _ => declarations_body(block),
    }
}

/// The head of a rule, up to the brace or semicolon that ends it.
pub open spec fn head_text(rule: RuleView) -> Seq<char> {
    match rule.rule_type {
        CssRuleType::Style => style_rule_head(rule.prelude),
        CssRuleType::Margin => at_rule_head(rule.prelude, Seq::empty(), true),
        _ => at_rule_head(
            keyword_name(rule.rule_type),
            rule.prelude,
            spec_body_kind(rule.rule_type) != BodyKind::Statement,
        ),
    }
}

/// What follows the head of a rule.
pub open spec fn body_text(rule: RuleView) -> Seq<char> {
    match spec_body_kind(rule.rule_type) {
        BodyKind::Statement => Seq::empty(),
        BodyKind::Rules | BodyKind::Keyframes => rules_body(rule.nested()),
        BodyKind::Declarations => declarations_body(rule.block),
        BodyKind::DeclarationsAndRules => style_body(rule.block, rule.rules),
        BodyKind::Bare => Seq::empty(),
    }
}

/// The text of a block of declarations is a space, the opening brace and
/// the body.
pub proof fn lemma_declaration_block_parts(block: Seq<DeclarationView>)
    ensures
        declaration_block_css(block) == seq![' ', '{'] + declarations_body(block),
{
    reveal_strlit(" { ");
    reveal_strlit(" }");
    reveal_strlit(" { }");
    assert(declaration_block_css(block) =~= seq![' ', '{'] + declarations_body(block));
}

/// The text of the body of a style or page rule is the opening brace and
/// what follows it.
pub proof fn lemma_style_body_parts(block: Seq<DeclarationView>, rules: Option<Seq<RuleView>>)
    ensures
        style_body_css(block, rules) == seq!['{'] + style_body(block, rules),
{
    reveal_strlit("{");
    reveal_strlit("\n  ");
    reveal_strlit("\n}");
    reveal_strlit(" ");
    reveal_strlit(" }");
    assert(style_body_css(block, rules) =~= seq!['{'] + style_body(block, rules));
}

/// The text of rules is the text of all but the last and the line of the
/// last, where the last is no empty nested-declarations rule.
pub proof fn lemma_rules_css_last(rules: Seq<RuleView>)
    requires
        rules.len() > 0,
        !rules.last().is_empty_nested_declarations(),
    ensures
        rules_css(rules) == rules_css(rules.drop_last()) + line(css_text(rules.last())),
{
    reveal_strlit("\n  ");
    assert(rules_css(rules) =~= rules_css(rules.drop_last()) + line(css_text(rules.last())));
}

/// The text of a keyframe is its selector and its block.
pub proof fn lemma_keyframe_text(keyframe: RuleView)
    requires
        keyframe.rule_type == CssRuleType::Keyframe,
    ensures
        css_text(keyframe) == keyframe_text(keyframe),
{
    lemma_declaration_block_parts(keyframe.block);
    assert(css_text(keyframe) =~= keyframe_text(keyframe));
}

/// The text of a rule is its head and its body.
pub proof fn lemma_css_text_parts(rule: RuleView)
    requires
        spec_body_kind(rule.rule_type) != BodyKind::Bare,
        rule.rule_type != CssRuleType::Keyframe,
        spec_body_kind(rule.rule_type) == BodyKind::Rules || spec_body_kind(rule.rule_type)
            == BodyKind::Keyframes ==> rule.rules is Some,
    ensures
        css_text(rule) == head_text(rule) + body_text(rule),
{
    reveal_strlit(" ");
    reveal_strlit(";");
    reveal_strlit("@");
    reveal_strlit(" {");
    reveal_strlit("\n}");
    reveal_strlit("@page");
    reveal_strlit("page");
    if has_keyword(rule.rule_type) {
        lemma_keyword(rule.rule_type);
    }
    lemma_declaration_block_parts(rule.block);
    lemma_style_body_parts(rule.block, rule.rules);
    assert(css_text(rule) =~= head_text(rule) + body_text(rule));
}

/// Keyframes read back: where the text of keyframes stands at `at`, the
/// grammar reads those keyframes and goes on behind them.
pub proof fn lemma_keyframes_read_back(s: Seq<char>, at: int, keyframes: Seq<RuleView>)
    requires
        are_keyframes(keyframes),
        0 <= at,
        at + rules_css(keyframes).len() <= s.len(),
        s.subrange(at, at + rules_css(keyframes).len()) == rules_css(keyframes),
    ensures
        parse_keyframes(s, at) == prepend(keyframes, parse_keyframes(s, at + rules_css(keyframes).len())),
    decreases keyframes.len(),
{
    let text = rules_css(keyframes);
    let to = at + text.len();
    if keyframes.len() == 0 {
        if let Some((items, end)) = parse_keyframes(s, to) {
            assert(keyframes + items =~= items);
        }
    } else {
        let front = keyframes.drop_last();
        let last = keyframes.last();
        lemma_rules_css_last(keyframes);
        lemma_keyframe_text(last);
        let front_text = rules_css(front);
        let middle = at + front_text.len();
        lemma_split(s, at, front_text, line(keyframe_text(last)));
        lemma_keyframes_read_back(s, at, front);
        lemma_keyframe_reads_back(s, middle, last);
        if let Some((items, end)) = parse_keyframes(s, to) {
            assert(front + (seq![last] + items) =~= keyframes + items) by {
                assert(front + seq![last] =~= keyframes);
            }
        }
    }
}

/// Where the grammar takes the prelude of a rule of the given type to start,
/// for a rule that starts at `start`.
pub open spec fn prelude_start(s: Seq<char>, start: int, rule_type: CssRuleType) -> int {
    if rule_type == CssRuleType::Style {
        start
    } else {
        skip(s, skip(s, start + 1, CharClass::Name), CharClass::Whitespace)
    }
}

/// How the grammar scans the head of a rule that stands at `at`: it reads
/// the type of the rule from it, finds the brace or semicolon at its end, and
/// takes the prelude of the rule from it.
pub proof fn lemma_rule_head(s: Seq<char>, at: int, rule: RuleView, containing: CssRuleTypes)
    requires
        is_rule(rule, containing),
        0 <= at,
        at + head_text(rule).len() <= s.len(),
        s.subrange(at, at + head_text(rule).len()) == head_text(rule),
    ensures
        head_text(rule).len() >= 2,
        skip(s, at, CharClass::Whitespace) == at,
        s[at] != '}',
        s[at] != ';',
        s[at] == '@' || s[skip(s, at, CharClass::Text)] == '{',
        s[at] == '@' || skip(s, at, CharClass::Text) < s.len(),
        rule_head_type(s, at) == Some(rule.rule_type),
        skip(s, prelude_start(s, at, rule.rule_type), CharClass::Text) == at + head_text(rule).len()
            - 1,
        s[at + head_text(rule).len() - 1] == if spec_body_kind(rule.rule_type)
            == BodyKind::Statement {
            ';'
        } else {
            '{'
        },
        rule.rule_type != CssRuleType::Margin ==> trimmed(
            s,
            prelude_start(s, at, rule.rule_type),
            at + head_text(rule).len() - 1,
        ) == rule.prelude,
        rule.rule_type == CssRuleType::Margin ==> trimmed(
            s,
            prelude_start(s, at, rule.rule_type),
            at + head_text(rule).len() - 1,
        ).len() == 0 && s.subrange(at + 1, skip(s, at + 1, CharClass::Name)) == rule.prelude,
{
    match rule.rule_type {
        CssRuleType::Style => {
            lemma_style_rule_head(s, at, rule.prelude);
        },
        CssRuleType::Margin => {
            lemma_margin_box_reads_as(rule.prelude);
            lemma_at_rule_head(s, at, rule.prelude, Seq::empty(), true);
        },
        _ => {
            lemma_keyword(rule.rule_type);
            lemma_at_rule_head(
                s,
                at,
                keyword_name(rule.rule_type),
                rule.prelude,
                spec_body_kind(rule.rule_type) != BodyKind::Statement,
            );
        },
    }
}

/// Declarations stop where a rule starts: where the head of a rule stands
/// at `at`, after nothing but white space from `from`, the grammar reads no
/// declaration from `from` and stops at `at`.
pub proof fn lemma_rule_ends_declarations(
    s: Seq<char>,
    from: int,
    at: int,
    rule: RuleView,
    containing: CssRuleTypes,
)
    requires
        is_rule(rule, containing),
        0 <= from <= at,
        at + head_text(rule).len() <= s.len(),
        s.subrange(at, at + head_text(rule).len()) == head_text(rule),
        forall|i: int| from <= i < at ==> spec_is_whitespace(#[trigger] s[i]),
    ensures
        parse_declarations(s, from) == Some((Seq::<DeclarationView>::empty(), at)),
{
    lemma_rule_head(s, at, rule, containing);
    lemma_skip_join(s, from, at, CharClass::Whitespace);
}

/// The text of rules is the line of the first and the text of the others,
/// where none of them is a nested-declarations rule.
pub proof fn lemma_rules_css_first(rules: Seq<RuleView>)
    requires
        rules.len() > 0,
        forall|i: int|
            0 <= i < rules.len() ==> (#[trigger] rules[i]).rule_type != CssRuleType::NestedDeclarations,
    ensures
        rules_css(rules) == line(css_text(rules[0])) + rules_css(rules.subrange(1, rules.len() as int)),
    decreases rules.len(),
{
    lemma_rules_css_last(rules);
    let front = rules.drop_last();
    let last = rules.last();
    let others = rules.subrange(1, rules.len() as int);
    if rules.len() == 1 {
        assert(rules_css(front) =~= Seq::<char>::empty());
        assert(rules_css(others) =~= Seq::<char>::empty());
        assert(line(css_text(rules[0])) + rules_css(others) =~= rules_css(front) + line(
            css_text(last),
        ));
    } else {
        lemma_rules_css_first(front);
        lemma_rules_css_last(others);
        assert(front.subrange(1, front.len() as int) =~= others.drop_last());
        assert(others.last() == last);
        assert(front[0] == rules[0]);
        assert(line(css_text(rules[0])) + (rules_css(others.drop_last()) + line(css_text(last)))
            =~= (line(css_text(rules[0])) + rules_css(others.drop_last())) + line(css_text(last)));
    }
}

/// The closing brace of a block of rules ends the rules: where a line feed
/// and a closing brace stand at `at`, the grammar reads no rule and stops at
/// the brace.
pub proof fn lemma_rules_end(s: Seq<char>, at: int, containing: CssRuleTypes)
    requires
        0 <= at,
        at + 2 <= s.len(),
        s.subrange(at, at + 2) == seq!['\n', '}'],
    ensures
        parse_rule_list(s, at, containing) == Some((Seq::<RuleView>::empty(), at + 1)),
        parse_keyframes(s, at) == Some((Seq::<RuleView>::empty(), at + 1)),
        s[at + 1] == '}',
{
    lemma_char_at(s, at, seq!['\n', '}'], 0);
    lemma_char_at(s, at, seq!['\n', '}'], 1);
    lemma_skip_to(s, at, at + 1, CharClass::Whitespace);
}

/// A statement rule reads back.
proof fn lemma_statement_reads_back(s: Seq<char>, at: int, rule: RuleView, containing: CssRuleTypes)
    requires
        is_rule(rule, containing),
        spec_body_kind(rule.rule_type) == BodyKind::Statement,
        0 <= at,
        at + css_text(rule).len() <= s.len(),
        s.subrange(at, at + css_text(rule).len()) == css_text(rule),
    ensures
        parse_rule(s, at, containing) == Some((rule, at + css_text(rule).len())),
{
    lemma_css_text_parts(rule);
    lemma_split(s, at, head_text(rule), body_text(rule));
    lemma_rule_head(s, at, rule, containing);
    assert(rule.block =~= Seq::<DeclarationView>::empty());
    assert(rule == RuleView {
        rule_type: rule.rule_type,
        prelude: rule.prelude,
        block: Seq::empty(),
        rules: None,
    });
}

/// A rule that holds a block of declarations reads back.
proof fn lemma_declarations_rule_reads_back(
    s: Seq<char>,
    at: int,
    rule: RuleView,
    containing: CssRuleTypes,
)
    requires
        is_rule(rule, containing),
        spec_body_kind(rule.rule_type) == BodyKind::Declarations,
        0 <= at,
        at + css_text(rule).len() <= s.len(),
        s.subrange(at, at + css_text(rule).len()) == css_text(rule),
    ensures
        parse_rule(s, at, containing) == Some((rule, at + css_text(rule).len())),
{
    lemma_css_text_parts(rule);
    lemma_split(s, at, head_text(rule), body_text(rule));
    lemma_rule_head(s, at, rule, containing);
    lemma_declarations_body_reads_back(s, at + head_text(rule).len(), rule.block);
    assert(rule == RuleView {
        rule_type: rule.rule_type,
        prelude: rule.prelude,
        block: rule.block,
        rules: None,
    });
}

/// A `@keyframes` rule reads back.
proof fn lemma_keyframes_rule_reads_back(s: Seq<char>, at: int, rule: RuleView, containing: CssRuleTypes)
    requires
        is_rule(rule, containing),
        spec_body_kind(rule.rule_type) == BodyKind::Keyframes,
        0 <= at,
        at + css_text(rule).len() <= s.len(),
        s.subrange(at, at + css_text(rule).len()) == css_text(rule),
    ensures
        parse_rule(s, at, containing) == Some((rule, at + css_text(rule).len())),
{
    let keyframes = rule.rules->Some_0;
    lemma_css_text_parts(rule);
    lemma_split(s, at, head_text(rule), body_text(rule));
    lemma_rule_head(s, at, rule, containing);
    let open = at + head_text(rule).len();
    let close = open + rules_css(keyframes).len();
    lemma_split(s, open, rules_css(keyframes), seq!['\n', '}']);
    lemma_keyframes_read_back(s, open, keyframes);
    lemma_rules_end(s, close, containing);
    assert(keyframes + Seq::<RuleView>::empty() =~= keyframes);
    assert(rule.block =~= Seq::<DeclarationView>::empty());
    assert(rule == RuleView {
        rule_type: rule.rule_type,
        prelude: rule.prelude,
        block: Seq::empty(),
        rules: Some(keyframes),
    });
}

/// A group rule reads back, where the rules of its block do.
proof fn lemma_group_reads_back(s: Seq<char>, at: int, rule: RuleView, containing: CssRuleTypes)
    requires
        is_rule(rule, containing),
        spec_body_kind(rule.rule_type) == BodyKind::Rules,
        0 <= at,
        at + css_text(rule).len() <= s.len(),
        s.subrange(at, at + css_text(rule).len()) == css_text(rule),
        parse_rule_list(s, at + head_text(rule).len(), containing.spec_with(rule.rule_type))
            == prepend(
            rule.nested(),
            parse_rule_list(
                s,
                at + head_text(rule).len() + rules_css(rule.nested()).len(),
                containing.spec_with(rule.rule_type),
            ),
        ),
    ensures
        parse_rule(s, at, containing) == Some((rule, at + css_text(rule).len())),
{
    let nested = rule.rules->Some_0;
    lemma_css_text_parts(rule);
    lemma_split(s, at, head_text(rule), body_text(rule));
    lemma_rule_head(s, at, rule, containing);
    let open = at + head_text(rule).len();
    let close = open + rules_css(nested).len();
    lemma_split(s, open, rules_css(nested), seq!['\n', '}']);
    lemma_rules_end(s, close, containing.spec_with(rule.rule_type));
    assert(nested + Seq::<RuleView>::empty() =~= nested);
    assert(rule.block =~= Seq::<DeclarationView>::empty());
    assert(rule == RuleView {
        rule_type: rule.rule_type,
        prelude: rule.prelude,
        block: Seq::empty(),
        rules: Some(nested),
    });
}

/// Where the rules of a style or page rule start in its body.
pub open spec fn nested_offset(block: Seq<DeclarationView>) -> int {
    if block.len() > 0 {
        line(declarations_css(block)).len() as int
    } else {
        0
    }
}

/// A style or page rule without nested rules reads back.
proof fn lemma_plain_style_reads_back(s: Seq<char>, at: int, rule: RuleView, containing: CssRuleTypes)
    requires
        is_rule(rule, containing),
        spec_body_kind(rule.rule_type) == BodyKind::DeclarationsAndRules,
        rule.rules is None,
        0 <= at,
        at + css_text(rule).len() <= s.len(),
        s.subrange(at, at + css_text(rule).len()) == css_text(rule),
    ensures
        parse_rule(s, at, containing) == Some((rule, at + css_text(rule).len())),
{
    lemma_css_text_parts(rule);
    lemma_split(s, at, head_text(rule), body_text(rule));
    lemma_rule_head(s, at, rule, containing);
    let open = at + head_text(rule).len();
    lemma_declarations_body_reads_back(s, open, rule.block);
    let close = open + declarations_body(rule.block).len() - 1;
    lemma_skip_to(s, close, close, CharClass::Whitespace);
    assert(rule == RuleView {
        rule_type: rule.rule_type,
        prelude: rule.prelude,
        block: rule.block,
        rules: None,
    });
}

/// A style or page rule with nested rules reads back, where its nested rules
/// do.
proof fn lemma_nesting_style_reads_back(s: Seq<char>, at: int, rule: RuleView, containing: CssRuleTypes)
    requires
        is_rule(rule, containing),
        spec_body_kind(rule.rule_type) == BodyKind::DeclarationsAndRules,
        rule.rules is Some,
        0 <= at,
        at + css_text(rule).len() <= s.len(),
        s.subrange(at, at + css_text(rule).len()) == css_text(rule),
        parse_rule_list(
            s,
            at + head_text(rule).len() + nested_offset(rule.block),
            containing.spec_with(rule.rule_type),
        ) == prepend(
            rule.nested(),
            parse_rule_list(
                s,
                at + head_text(rule).len() + nested_offset(rule.block) + rules_css(rule.nested()).len(),
                containing.spec_with(rule.rule_type),
            ),
        ),
    ensures
        parse_rule(s, at, containing) == Some((rule, at + css_text(rule).len())),
{
    let nested = rule.rules->Some_0;
    let inner = containing.spec_with(rule.rule_type);
    lemma_css_text_parts(rule);
    lemma_split(s, at, head_text(rule), body_text(rule));
    lemma_rule_head(s, at, rule, containing);
    let open = at + head_text(rule).len();
    let first = open + nested_offset(rule.block);
    let close = first + rules_css(nested).len();
    if rule.block.len() > 0 {
        let declarations = line(declarations_css(rule.block));
        lemma_split(s, open, declarations, rules_body(nested));
        lemma_split(s, open, seq!['\n', ' ', ' '], declarations_css(rule.block));
        assert forall|i: int| open <= i < open + 3 implies spec_is_whitespace(#[trigger] s[i]) by {
            lemma_char_at(s, open, seq!['\n', ' ', ' '], i - open);
        }
        lemma_declarations_after_space(s, open, open + 3);
        lemma_declarations_read_back(s, open + 3, rule.block);
    }
    lemma_split(s, first, rules_css(nested), seq!['\n', '}']);
    assert forall|i: int| 0 <= i < nested.len() implies (#[trigger] nested[i]).rule_type
        != CssRuleType::NestedDeclarations by {
        assert(is_rule(nested[i], inner));
    }
    lemma_rules_css_first(nested);
    let others = rules_css(nested.subrange(1, nested.len() as int));
    lemma_split(s, first, line(css_text(nested[0])), others);
    lemma_split(s, first, seq!['\n', ' ', ' '], css_text(nested[0]));
    assert forall|i: int| first <= i < first + 3 implies spec_is_whitespace(#[trigger] s[i]) by {
        lemma_char_at(s, first, seq!['\n', ' ', ' '], i - first);
    }
    assert(is_rule(nested[0], inner));
    lemma_css_text_parts(nested[0]);
    lemma_split(s, first + 3, head_text(nested[0]), body_text(nested[0]));
    lemma_rule_ends_declarations(s, first, first + 3, nested[0], inner);
    assert(parse_declarations(s, open) == Some((rule.block, first + 3))) by {
        if rule.block.len() > 0 {
            assert(rule.block + Seq::<DeclarationView>::empty() =~= rule.block);
        } else {
            assert(rule.block =~= Seq::<DeclarationView>::empty());
        }
    }
    lemma_rule_list_after_space(s, first, first + 3, inner);
    lemma_rules_end(s, close, inner);
    assert(nested + Seq::<RuleView>::empty() =~= nested);
    assert(rule == RuleView {
        rule_type: rule.rule_type,
        prelude: rule.prelude,
        block: rule.block,
        rules: Some(nested),
    });
}

/// A rule reads back.
///
/// Where the text of a rule that the grammar reads stands at `at`, the
/// grammar reads that rule there, and goes on behind the text.
pub proof fn lemma_rule_reads_back(s: Seq<char>, at: int, rule: RuleView, containing: CssRuleTypes)
    requires
        is_rule(rule, containing),
        0 <= at,
        at + css_text(rule).len() <= s.len(),
        s.subrange(at, at + css_text(rule).len()) == css_text(rule),
    ensures
        parse_rule(s, at, containing) == Some((rule, at + css_text(rule).len())),
    decreases rule,
{
    match spec_body_kind(rule.rule_type) {
        BodyKind::Statement => lemma_statement_reads_back(s, at, rule, containing),
        BodyKind::Declarations => lemma_declarations_rule_reads_back(s, at, rule, containing),
        BodyKind::Keyframes => lemma_keyframes_rule_reads_back(s, at, rule, containing),
        BodyKind::Rules => {
            let nested = rule.rules->Some_0;
            lemma_css_text_parts(rule);
            lemma_split(s, at, head_text(rule), body_text(rule));
            let open = at + head_text(rule).len();
            lemma_split(s, open, rules_css(nested), seq!['\n', '}']);
            lemma_rules_read_back(s, open, nested, containing.spec_with(rule.rule_type));
            lemma_group_reads_back(s, at, rule, containing);
        },
        BodyKind::DeclarationsAndRules => {
            match rule.rules {
                None => lemma_plain_style_reads_back(s, at, rule, containing),
                Some(nested) => {
                    lemma_css_text_parts(rule);
                    lemma_split(s, at, head_text(rule), body_text(rule));
                    let open = at + head_text(rule).len();
                    let first = open + nested_offset(rule.block);
                    if rule.block.len() > 0 {
                        lemma_split(s, open, line(declarations_css(rule.block)), rules_body(nested));
                    }
                    lemma_split(s, first, rules_css(nested), seq!['\n', '}']);
                    lemma_rules_read_back(s, first, nested, containing.spec_with(rule.rule_type));
                    lemma_nesting_style_reads_back(s, at, rule, containing);
                },
            }
        },
        BodyKind::Bare => {},
    }
}

/// Rules read back.
///
/// Where the text of rules that the grammar reads stands at `at`, the
/// grammar reads those rules there, and goes on behind the text.
pub proof fn lemma_rules_read_back(s: Seq<char>, at: int, rules: Seq<RuleView>, containing: CssRuleTypes)
    requires
        are_rules(rules, containing),
        0 <= at,
        at + rules_css(rules).len() <= s.len(),
        s.subrange(at, at + rules_css(rules).len()) == rules_css(rules),
    ensures
        parse_rule_list(s, at, containing) == prepend(
            rules,
            parse_rule_list(s, at + rules_css(rules).len(), containing),
        ),
    decreases rules, 0nat, rules.len(),
{
    let to = at + rules_css(rules).len();
    if rules.len() == 0 {
        if let Some((items, end)) = parse_rule_list(s, to, containing) {
            assert(rules + items =~= items);
        }
    } else {
        let front = rules.drop_last();
        let last = rules.last();
        assert(is_rule(last, containing));
        lemma_rules_css_last(rules);
        let middle = at + rules_css(front).len();
        let start = middle + 3;
        lemma_split(s, at, rules_css(front), line(css_text(last)));
        lemma_split(s, middle, seq!['\n', ' ', ' '], css_text(last));
        assert forall|i: int| middle <= i < start implies spec_is_whitespace(#[trigger] s[i]) by {
            lemma_char_at(s, middle, seq!['\n', ' ', ' '], i - middle);
        }
        assert(are_rules(front, containing)) by {
            assert forall|i: int| 0 <= i < front.len() implies is_rule(
                #[trigger] front[i],
                containing,
            ) && spec_permitted_in(containing, front[i].rule_type) by {
                assert(front[i] == rules[i]);
            }
        }
        lemma_rules_read_back(s, at, front, containing);
        lemma_rule_reads_back(s, start, last, containing);
        lemma_css_text_parts(last);
        lemma_split(s, start, head_text(last), body_text(last));
        lemma_rule_head(s, start, last, containing);
        lemma_skip_join(s, middle, start, CharClass::Whitespace);
        if let Some((items, end)) = parse_rule_list(s, to, containing) {
            assert(front + (seq![last] + items) =~= rules + items) by {
                assert(front + seq![last] =~= rules);
            }
        }
    }
}

/// The keyframes that the grammar reads are well formed, and it stops in
/// the text.
pub proof fn lemma_parsed_keyframes(s: Seq<char>, from: int)
    requires
        0 <= from <= s.len(),
    ensures
        parse_keyframes(s, from) matches Some((keyframes, end)) ==> are_keyframes(keyframes) && from
            <= end <= s.len(),
    decreases s.len() - from,
{
    lemma_skip_bounds(s, from, CharClass::Whitespace);
    let start = skip(s, from, CharClass::Whitespace);
    if start >= s.len() || s[start] == '}' {
    } else {
        lemma_skip_bounds(s, start, CharClass::Text);
        let stop = skip(s, start, CharClass::Text);
        let selector = trimmed(s, start, stop);
        if parse_keyframes(s, from) is Some {
            lemma_parsed_declarations(s, stop + 1);
            let (block, close) = parse_declarations(s, stop + 1)->Some_0;
            lemma_parsed_keyframes(s, close + 1);
            lemma_trimmed_is_text(s, start, stop);
            let keyframe = RuleView {
                rule_type: CssRuleType::Keyframe,
                prelude: selector,
                block,
                rules: None,
            };
            assert(is_keyframe(keyframe));
            let rest = parse_keyframes(s, close + 1)->Some_0.0;
            let all = seq![keyframe] + rest;
            assert forall|i: int| 0 <= i < all.len() implies is_keyframe(#[trigger] all[i]) by {
                if i > 0 {
                    assert(all[i] == rest[i - 1]);
                }
            }
        }
    }
}

/// The rule that the grammar reads is well formed, and it stops in the text,
/// behind the start of the rule.
pub proof fn lemma_parsed_rule(s: Seq<char>, from: int, containing: CssRuleTypes)
    requires
        0 <= from <= s.len(),
    ensures
        parse_rule(s, from, containing) matches Some((rule, end)) ==> is_rule(rule, containing) && from
            < end <= s.len(),
    decreases s.len() - from, 0nat,
{
    if let Some((rule, end)) = parse_rule(s, from, containing) {
        lemma_skip_bounds(s, from, CharClass::Whitespace);
        let start = skip(s, from, CharClass::Whitespace);
        let rule_type = rule_head_type(s, from)->Some_0;
        lemma_skip_bounds(s, start + 1, CharClass::Name);
        let name_end = skip(s, start + 1, CharClass::Name);
        lemma_skip_bounds(s, name_end, CharClass::Whitespace);
        let first = prelude_start(s, start, rule_type);
        lemma_skip_bounds(s, first, CharClass::Text);
        let stop = skip(s, first, CharClass::Text);
        lemma_trimmed_is_text(s, first, stop);
        lemma_trim_end_bounds(s, first, stop);
        let text = trimmed(s, first, stop);
        let inner = containing.spec_with(rule_type);
        assert(rule.rule_type == rule_type);
        if rule_type == CssRuleType::Style {
            assert(text[0] == s[start]);
        }
        match spec_body_kind(rule_type) {
            BodyKind::Statement => {},
            BodyKind::Rules => {
                lemma_parsed_rule_list(s, stop + 1, inner);
            },
            BodyKind::Keyframes => {
                lemma_parsed_keyframes(s, stop + 1);
            },
            BodyKind::Declarations => {
                lemma_parsed_declarations(s, stop + 1);
            },
            BodyKind::DeclarationsAndRules => {
                lemma_parsed_declarations(s, stop + 1);
                let next = parse_declarations(s, stop + 1)->Some_0.1;
                lemma_parsed_rule_list(s, next, inner);
            },
            BodyKind::Bare => {},
        }
    }
}

/// The rules that the grammar reads are well formed and permitted, and it
/// stops in the text.
pub proof fn lemma_parsed_rule_list(s: Seq<char>, from: int, containing: CssRuleTypes)
    requires
        0 <= from <= s.len(),
    ensures
        parse_rule_list(s, from, containing) matches Some((rules, end)) ==> are_rules(
            rules,
            containing,
        ) && from <= end <= s.len(),
    decreases s.len() - from, 1nat,
{
    lemma_skip_bounds(s, from, CharClass::Whitespace);
    let start = skip(s, from, CharClass::Whitespace);
    if start >= s.len() || s[start] == '}' {
    } else if parse_rule_list(s, from, containing) is Some {
        lemma_parsed_rule(s, start, containing);
        let (rule, next) = parse_rule(s, start, containing)->Some_0;
        lemma_parsed_rule_list(s, next, containing);
        let rest = parse_rule_list(s, next, containing)->Some_0.0;
        if spec_permitted_in(containing, rule.rule_type) {
            let all = seq![rule] + rest;
            assert forall|i: int| 0 <= i < all.len() implies is_rule(#[trigger] all[i], containing)
                && spec_permitted_in(containing, all[i].rule_type) by {
                if i > 0 {
                    assert(all[i] == rest[i - 1]);
                }
            }
        }
    }
}

/// Reading back what was written.
///
/// Let a text be one rule. The text that this rule is serialized to is one
/// rule again, and it is the same rule: the same type, prelude, declarations
/// and nested rules.
pub proof fn lemma_rule_round_trip(s: Seq<char>, containing: CssRuleTypes)
    requires
        parse_one_rule(s, containing) is Some,
    ensures
        parse_one_rule(css_text(parse_one_rule(s, containing)->Some_0), containing) == parse_one_rule(
            s,
            containing,
        ),
{
    let rule = parse_one_rule(s, containing)->Some_0;
    let text = css_text(rule);
    lemma_parsed_rule(s, 0, containing);
    assert(text.subrange(0, text.len() as int) =~= text);
    lemma_rule_reads_back(text, 0, rule, containing);
    lemma_skip_to(text, text.len() as int, text.len() as int, CharClass::Whitespace);
}

/// The text of declarations is the text of the first and the rest.
proof fn lemma_declarations_css_first(declarations: Seq<DeclarationView>)
    requires
        declarations.len() > 0,
    ensures
        exists|rest: Seq<char>| declarations_css(declarations) == declaration_css(declarations[0]) + rest,
    decreases declarations.len(),
{
    if declarations.len() == 1 {
        assert(declarations_css(declarations) =~= declaration_css(declarations[0]) + Seq::<char>::empty());
    } else {
        let front = declarations.drop_last();
        lemma_declarations_css_first(front);
        let rest = choose|rest: Seq<char>| declarations_css(front) == declaration_css(front[0]) + rest;
        assert(front[0] == declarations[0]);
        assert(declarations_css(declarations) =~= declaration_css(declarations[0]) + (rest + " "@
            + declaration_css(declarations.last())));
    }
}

/// The text of declarations is not the head of a rule.
pub proof fn lemma_declarations_are_no_rule(declarations: Seq<DeclarationView>)
    requires
        are_declarations(declarations),
        declarations.len() > 0,
    ensures
        rule_head_type(declarations_css(declarations), 0) is None,
{
    let text = declarations_css(declarations);
    let first = declaration_css(declarations[0]);
    lemma_declarations_css_first(declarations);
    let rest = choose|rest: Seq<char>| text == first + rest;
    assert(text.subrange(0, first.len() as int) =~= first);
    lemma_declaration_reads_back(text, 0, 0, declarations[0]);
}

/// Reading back what was inserted.
///
/// Let the insertion of a text at some position give a rule. The text that
/// this rule is serialized to, inserted at the same position, gives the same
/// rule: the same type, prelude, declarations and nested rules. This holds of
/// the rules that the text is parsed to, and of the nested-declarations rule
/// that bare declarations are taken for.
pub proof fn lemma_insert_round_trip(
    s: Seq<char>,
    types: Seq<CssRuleType>,
    index: int,
    containing: CssRuleTypes,
    allow_import: bool,
)
    requires
        insert_outcome(s, types, index, containing, allow_import) is Ok,
    ensures
        insert_outcome(
            css_text(insert_outcome(s, types, index, containing, allow_import)->Ok_0),
            types,
            index,
            containing,
            allow_import,
        ) == insert_outcome(s, types, index, containing, allow_import),
{
    let rule = insert_outcome(s, types, index, containing, allow_import)->Ok_0;
    let text = css_text(rule);
    if parse_one_rule(s, containing) == Some(rule) && rule_head_type(s, 0) == Some(rule.rule_type) {
        lemma_parsed_rule_has_head_type(s, 0, containing);
        lemma_rule_round_trip(s, containing);
        lemma_parsed_rule_has_head_type(text, 0, containing);
    } else {
        let block = parse_declaration_list(s);
        lemma_parsed_rule_has_head_type(s, 0, containing);
        assert(rule == RuleView {
            rule_type: CssRuleType::NestedDeclarations,
            prelude: Seq::empty(),
            block,
            rules: None,
        });
        lemma_parsed_declarations(s, 0);
        lemma_declarations_are_no_rule(block);
        lemma_declaration_list_round_trip(s);
    }
}

} // verus!
