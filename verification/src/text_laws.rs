//! What the texts of a team hold, whatever they are written from.
use vstd::prelude::*;
use crate::error::TeamWorkflowErrorView;
use crate::maps::Models;
use crate::model::{ModelDescription, ModelDescriptionView};

verus! {

/// A number below ten is written as one digit. A greater one is written as its tenth part, and
/// its last digit behind it.
pub proof fn law_decimal_digit_by_digit(n: nat)
    ensures
        n < 10 ==> crate::text::decimal(n).len() == 1,
        n >= 10 ==> crate::text::decimal(n).drop_last() == crate::text::decimal(n / 10),
        crate::text::decimal(n).len() > 0,
        crate::text::decimal(n).last() as int == '0' as int + (n % 10) as int,
{
    reveal_strlit("0");
    reveal_strlit("1");
    reveal_strlit("2");
    reveal_strlit("3");
    reveal_strlit("4");
    reveal_strlit("5");
    reveal_strlit("6");
    reveal_strlit("7");
    reveal_strlit("8");
    reveal_strlit("9");
    if n >= 10 {
        assert(crate::text::decimal(n).drop_last() =~= crate::text::decimal(n / 10));
    }
}

/// Different numbers are written differently.
pub proof fn law_decimal_tells_numbers_apart(m: nat, n: nat)
    requires
        crate::text::decimal(m) == crate::text::decimal(n),
    ensures
        m == n,
    decreases m,
{
    law_decimal_digit_by_digit(m);
    law_decimal_digit_by_digit(n);
    assert(m % 10 == n % 10);
    if m >= 10 && n >= 10 {
        law_decimal_tells_numbers_apart(m / 10, n / 10);
    } else if m >= 10 {
        law_decimal_digit_by_digit(m / 10);
    } else if n >= 10 {
        law_decimal_digit_by_digit(n / 10);
    }
}

/// The empty list is a pair of brackets; a list of one item is the item between brackets; and one
/// more item adds a comma, a space and that item before the closing bracket.
pub proof fn law_bracketed_item_by_item(items: Seq<Seq<char>>, item: Seq<char>)
    ensures
        crate::text::bracketed(Seq::empty()) == seq!['[', ']'],
        crate::text::bracketed(seq![item]) == seq!['['] + item + seq![']'],
        items.len() > 0 ==> crate::text::bracketed(items.push(item)) == crate::text::bracketed(
            items,
        ).drop_last() + seq![',', ' '] + item + seq![']'],
{
    reveal_strlit("[");
    reveal_strlit("]");
    reveal_strlit(", ");
    assert(", "@ =~= seq![',', ' ']);
    assert("["@ =~= seq!['[']);
    assert("]"@ =~= seq![']']);
    assert(crate::text::bracketed(Seq::empty()) =~= seq!['[', ']']);
    assert(crate::text::bracketed(seq![item]) =~= seq!['['] + item + seq![']']);
    if items.len() > 0 {
        assert(items.push(item).drop_last() =~= items);
        assert(crate::text::bracketed(items).drop_last() =~= "["@ + crate::text::comma_separated(
            items,
        ));
        assert(crate::text::bracketed(items.push(item)) =~= crate::text::bracketed(
            items,
        ).drop_last() + seq![',', ' '] + item + seq![']']);
    }
}

/// A list is as long as its items together, with the two brackets and with two characters between
/// each two neighbours.
pub proof fn law_bracketed_length(items: Seq<Seq<char>>)
    requires
        items.len() > 0,
    ensures
        crate::text::bracketed(items).len() == items.fold_left(
            0int,
            |sum: int, item: Seq<char>| sum + item.len(),
        ) + 2 * items.len(),
    decreases items.len(),
{
    let total = |sum: int, item: Seq<char>| sum + item.len();
    let rest = items.drop_last();
    assert(items =~= rest.push(items.last()));
    assert(items.fold_left(0int, total) == total(rest.fold_left(0int, total), items.last()));
    law_bracketed_item_by_item(rest, items.last());
    if rest.len() == 0 {
        assert(items =~= seq![items.last()]);
        assert(rest.fold_left(0int, total) == 0);
    } else {
        law_bracketed_length(rest);
    }
}

/// Each item of a list stands in it, behind all the items before it.
pub proof fn law_bracketed_holds_each_item(items: Seq<Seq<char>>, i: int)
    requires
        0 <= i < items.len(),
    ensures
        ({
            let list = crate::text::bracketed(items);
            let end = crate::text::bracketed(items.take(i + 1)).len() - 1;
            &&& items[i].len() < end < list.len()
            &&& list.subrange(end - items[i].len(), end) == items[i]
        }),
    decreases items.len(),
{
    let list = crate::text::bracketed(items);
    let rest = items.drop_last();
    assert(items =~= rest.push(items.last()));
    law_bracketed_item_by_item(rest, items.last());
    if i == items.len() - 1 {
        assert(items.take(i + 1) =~= items);
        let end = list.len() - 1;
        if rest.len() == 0 {
            assert(items =~= seq![items.last()]);
        } else {
            law_bracketed_length(rest);
        }
        assert(list.subrange(end - items[i].len(), end) =~= items[i]);
    } else {
        law_bracketed_holds_each_item(rest, i);
        assert(rest.take(i + 1) =~= items.take(i + 1));
        let end = crate::text::bracketed(items.take(i + 1)).len() - 1;
        let short = crate::text::bracketed(rest);
        assert(list.subrange(end - items[i].len(), end) =~= short.subrange(
            end - rest[i].len(),
            end,
        ));
    }
}

/// `Debug` writes the empty list of strings as a pair of brackets; a list of one string as the
/// quoted string between brackets; and one more string adds a comma, a space and that string,
/// quoted, before the closing bracket.
pub proof fn law_debug_list_string_by_string(items: Seq<Seq<char>>, item: Seq<char>)
    ensures
        crate::model::debug_list(Seq::empty()) == seq!['[', ']'],
        crate::model::debug_list(seq![item]) == seq!['['] + crate::text::debug_quoted(item)
            + seq![']'],
        items.len() > 0 ==> crate::model::debug_list(items.push(item)) == crate::model::debug_list(
            items,
        ).drop_last() + seq![',', ' '] + crate::text::debug_quoted(item) + seq![']'],
{
    let quoted = items.map_values(|s: Seq<char>| crate::text::debug_quoted(s));
    law_bracketed_item_by_item(quoted, crate::text::debug_quoted(item));
    assert(Seq::<Seq<char>>::empty().map_values(|s: Seq<char>| crate::text::debug_quoted(s))
        =~= Seq::empty());
    assert(seq![item].map_values(|s: Seq<char>| crate::text::debug_quoted(s)) =~= seq![
        crate::text::debug_quoted(item),
    ]);
    assert(items.push(item).map_values(|s: Seq<char>| crate::text::debug_quoted(s))
        =~= quoted.push(crate::text::debug_quoted(item)));
}

/// The text of a description starts with the name, the description and the capabilities, each
/// behind its heading; ends with the context window and the maximum of tokens in decimal, each
/// behind its heading; and has nothing between the two parts.
pub proof fn law_description_headings(d: ModelDescriptionView, capabilities: Seq<char>)
    ensures
        ({
            let first = "Model: "@ + d.name + "\nDescription: "@ + d.description
                + "\nCapabilities: "@ + capabilities;
            let second = "\nContext Window: "@ + crate::text::decimal(d.context_window)
                + "\nMax Tokens: "@ + crate::text::decimal(d.max_tokens);
            let whole = crate::model::described(d, capabilities);
            &&& first.is_prefix_of(whole)
            &&& second.is_suffix_of(whole)
            &&& whole.len() == first.len() + second.len()
        }),
{
    let first = "Model: "@ + d.name + "\nDescription: "@ + d.description + "\nCapabilities: "@
        + capabilities;
    let second = "\nContext Window: "@ + crate::text::decimal(d.context_window)
        + "\nMax Tokens: "@ + crate::text::decimal(d.max_tokens);
    let whole = crate::model::described(d, capabilities);
    assert(whole =~= first + second);
    assert(first =~= whole.subrange(0, first.len() as int));
    assert(second =~= whole.subrange(whole.len() - second.len(), whole.len() as int));
}

/// The text of a description, with its capabilities as `Debug` writes them, starts with the name,
/// the description and the capabilities and ends with the context window and the maximum of tokens.
pub proof fn law_description_text_headings(d: ModelDescriptionView)
    ensures
        ({
            let first = "Model: "@ + d.name + "\nDescription: "@ + d.description
                + "\nCapabilities: "@ + crate::model::debug_list(d.capabilities);
            let second = "\nContext Window: "@ + crate::text::decimal(d.context_window)
                + "\nMax Tokens: "@ + crate::text::decimal(d.max_tokens);
            let whole = crate::model::description_text(d);
            &&& first.is_prefix_of(whole)
            &&& second.is_suffix_of(whole)
            &&& whole.len() == first.len() + second.len()
        }),
{
    law_description_headings(d, crate::model::debug_list(d.capabilities));
}

/// The leader is given the whole task, behind the request to analyze it, and nothing else.
pub proof fn law_analysis_task_holds_the_task(task: Seq<char>)
    ensures
        crate::prompt::ANALYSIS_REQUEST@.is_prefix_of(crate::prompt::analysis_task(task)),
        task.is_suffix_of(crate::prompt::analysis_task(task)),
        crate::prompt::analysis_task(task).len() == crate::prompt::ANALYSIS_REQUEST@.len()
            + task.len(),
{
    let whole = crate::prompt::analysis_task(task);
    let request = crate::prompt::ANALYSIS_REQUEST@;
    assert(request =~= whole.subrange(0, request.len() as int));
    assert(task =~= whole.subrange(whole.len() - task.len(), whole.len() as int));
}

/// The prompt of a leader has exactly the list of the models between its two fixed parts.
pub proof fn law_leader_prompt_frames_the_models(available_models: Seq<char>)
    ensures
        ({
            let head = crate::prompt::LEADER_PROMPT_HEAD@;
            let tail = crate::prompt::LEADER_PROMPT_TAIL@;
            let prompt = crate::prompt::leader_prompt(available_models);
            &&& head.is_prefix_of(prompt)
            &&& tail.is_suffix_of(prompt)
            &&& prompt.len() == head.len() + available_models.len() + tail.len()
            &&& prompt.subrange(head.len() as int, prompt.len() - tail.len()) == available_models
        }),
{
    let head = crate::prompt::LEADER_PROMPT_HEAD@;
    let tail = crate::prompt::LEADER_PROMPT_TAIL@;
    let prompt = crate::prompt::leader_prompt(available_models);
    assert(head =~= prompt.subrange(0, head.len() as int));
    assert(tail =~= prompt.subrange(prompt.len() - tail.len(), prompt.len() as int));
    assert(prompt.subrange(head.len() as int, prompt.len() - tail.len()) =~= available_models);
}

/// No texts make no lines, and one more text adds a line break and that text.
pub proof fn law_lines_text_by_text(texts: Seq<Seq<char>>, text: Seq<char>)
    ensures
        crate::team::lines(Seq::empty()) == Seq::<char>::empty(),
        crate::team::lines(texts.push(text)) == crate::team::lines(texts) + seq!['\n'] + text,
{
    reveal_strlit("\n");
    assert("\n"@ =~= seq!['\n']);
    assert(texts.push(text).drop_last() =~= texts);
}

/// A listing has the text of each of its descriptions, in its order, and the names beside them.
pub proof fn law_listing_has_each_description(listing: Seq<(String, ModelDescription)>, i: int)
    requires
        0 <= i < listing.len(),
    ensures
        crate::team::listed_texts(listing).len() == listing.len(),
        crate::team::listed_texts(listing)[i] == crate::model::description_text(listing[i].1@),
        crate::maps::listed_names(listing).len() == listing.len(),
        crate::maps::listed_names(listing)[i] == listing[i].0@,
{
}

/// In an order that names each model once, each name is one of a model, each model has its name
/// at one place and at no other, and the texts come in that order.
pub proof fn law_each_model_is_named_once(models: Models, names: Seq<Seq<char>>, i: int, j: int)
    requires
        crate::team::enumerates(names, models),
    ensures
        forall|name: Seq<char>| models.contains_key(name) <==> names.contains(name),
        0 <= i < names.len() && 0 <= j < names.len() && names[i] == names[j] ==> i == j,
        crate::team::description_texts(models, names).len() == names.len(),
        0 <= i < names.len() ==> crate::team::description_texts(models, names)[i]
            == crate::model::description_text(models[names[i]].1),
{
    assert forall|name: Seq<char>| models.contains_key(name) <==> names.contains(name) by {
        assert(names.to_set().contains(name) <==> names.contains(name));
        assert(models.dom().contains(name) <==> models.contains_key(name));
    }
}

/// The message of an error starts with what went wrong and ends with the name of the model, or
/// with the message of the error behind it.
pub proof fn law_error_message_tells_the_cause(cause: Seq<char>)
    ensures
        ({
            let text = crate::error::error_text(TeamWorkflowErrorView::ModelNotFound(cause));
            &&& "Model not found: "@.is_prefix_of(text)
            &&& cause.is_suffix_of(text)
            &&& text.len() == "Model not found: "@.len() + cause.len()
        }),
        ({
            let text = crate::error::error_text(TeamWorkflowErrorView::AgentError(cause));
            &&& "Agent error: "@.is_prefix_of(text)
            &&& cause.is_suffix_of(text)
            &&& text.len() == "Agent error: "@.len() + cause.len()
        }),
        ({
            let text = crate::error::error_text(TeamWorkflowErrorView::GraphWorkflowError(cause));
            &&& "Graph workflow error: "@.is_prefix_of(text)
            &&& cause.is_suffix_of(text)
            &&& text.len() == "Graph workflow error: "@.len() + cause.len()
        }),
        ({
            let text = crate::error::error_text(TeamWorkflowErrorView::JsonError(cause));
            &&& "JSON error: "@.is_prefix_of(text)
            &&& cause.is_suffix_of(text)
            &&& text.len() == "JSON error: "@.len() + cause.len()
        }),
        crate::error::error_text(TeamWorkflowErrorView::LeaderAgentNotSet)
            == "Leader agent not set"@,
{
    lemma_ends(
        "Model not found: "@,
        cause,
        crate::error::error_text(TeamWorkflowErrorView::ModelNotFound(cause)),
    );
    lemma_ends(
        "Agent error: "@,
        cause,
        crate::error::error_text(TeamWorkflowErrorView::AgentError(cause)),
    );
    lemma_ends(
        "Graph workflow error: "@,
        cause,
        crate::error::error_text(TeamWorkflowErrorView::GraphWorkflowError(cause)),
    );
    lemma_ends(
        "JSON error: "@,
        cause,
        crate::error::error_text(TeamWorkflowErrorView::JsonError(cause)),
    );
}

/// Of two texts one after the other, the first is a prefix and the second a suffix.
proof fn lemma_ends(first: Seq<char>, second: Seq<char>, whole: Seq<char>)
    requires
        whole == first + second,
    ensures
        first.is_prefix_of(whole),
        second.is_suffix_of(whole),
        whole.len() == first.len() + second.len(),
{
    assert(first =~= whole.subrange(0, first.len() as int));
    assert(second =~= whole.subrange(whole.len() - second.len(), whole.len() as int));
}

/// An agent that ended well answers what it said. One that failed answers a line that starts with
/// its name and ends with the message of its failure.
pub proof fn law_answer_tells_the_outcome(agent: Seq<char>, text: Seq<char>)
    ensures
        crate::answer::answer_text(agent, Ok(text)) == text,
        ("Agent: "@ + agent + ", Error: "@).is_prefix_of(
            crate::answer::answer_text(agent, Err(text)),
        ),
        text.is_suffix_of(crate::answer::answer_text(agent, Err(text))),
        crate::answer::answer_text(agent, Err(text)).len() == "Agent: "@.len() + agent.len()
            + ", Error: "@.len() + text.len(),
{
    lemma_ends(
        "Agent: "@ + agent + ", Error: "@,
        text,
        crate::answer::answer_text(agent, Err(text)),
    );
}

/// Each character adds one to the line breaks of a text if it is one, and nothing otherwise.
pub proof fn law_line_breaks_are_counted(s: Seq<char>, c: char)
    ensures
        crate::text::line_breaks(Seq::empty()) == 0,
        crate::text::line_breaks(s.push(c)) == crate::text::line_breaks(s) + (if c == '\n' {
            1int
        } else {
            0int
        }),
{
    assert(s.push(c).drop_last() =~= s);
}

} // verus!
