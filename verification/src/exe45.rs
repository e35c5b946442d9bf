//! The message-script rule set of the 4.5 game build.

use vstd::prelude::*;
use crate::msg::{spec_charset_count, spec_rules_wf, Parser, RuleActionView, RuleView};

verus! {

/// The rules of the 4.5 build's script format: `e5` ends a message, bytes
/// below `e4` index the charset, `e8` is a line break, and the rest are
/// control codes with fixed argument counts.
pub open spec fn spec_exe45_rules(cs: Seq<Seq<char>>) -> Seq<RuleView> {
    seq![RuleView { pattern: seq![0xe5u8], action: RuleActionView::Stop }] + Seq::new(
        spec_charset_count(cs, 0xe4),
        |i: int| RuleView {
            pattern: seq![i as u8],
            action: RuleActionView::Text { text: cs[i] },
        },
    ) + seq![
        RuleView { pattern: seq![0xe8u8], action: RuleActionView::Text { text: "\n"@ } },
        RuleView { pattern: seq![0xe6u8], action: RuleActionView::Command { arg_len: 1 } },
        RuleView { pattern: seq![0xe7u8, 0x01u8], action: RuleActionView::Command { arg_len: 0 } },
        RuleView { pattern: seq![0xe7u8, 0x02u8], action: RuleActionView::Command { arg_len: 0 } },
        RuleView { pattern: seq![0xe7u8, 0x03u8], action: RuleActionView::Command { arg_len: 0 } },
        RuleView { pattern: seq![0xedu8, 0x00u8], action: RuleActionView::Command { arg_len: 2 } },
        RuleView { pattern: seq![0xf0u8, 0x00u8], action: RuleActionView::Command { arg_len: 1 } },
        RuleView { pattern: seq![0xfcu8, 0x06u8], action: RuleActionView::Command { arg_len: 0 } },
    ]
}

/// The 4.5 build's script parser over the given charset.
pub fn parser(charset: &Vec<String>) -> (r: Parser)
    ensures
        r@ == spec_exe45_rules(charset@.map_values(|s: String| s@)),
        spec_rules_wf(r@),
{
    let stop = byte1(0xe5);
    let newline = byte1(0xe8);
    let print_var = byte1(0xe6);
    let pause1 = byte2(0xe7, 0x01);
    let pause2 = byte2(0xe7, 0x02);
    let pause3 = byte2(0xe7, 0x03);
    let jump = byte2(0xed, 0x00);
    let mugshot = byte2(0xf0, 0x00);
    let effect = byte2(0xfc, 0x06);
    let r = Parser::builder()
        .add_stop_rule(stop.as_slice())
        .add_charset_rules(charset, 0xe4)
        .add_text_rule(newline.as_slice(), "\n")
        .add_command_rule(print_var.as_slice(), 1)
        .add_command_rule(pause1.as_slice(), 0)
        .add_command_rule(pause2.as_slice(), 0)
        .add_command_rule(pause3.as_slice(), 0)
        .add_command_rule(jump.as_slice(), 2)
        .add_command_rule(mugshot.as_slice(), 1)
        .add_command_rule(effect.as_slice(), 0)
        .build();
    proof {
        assert(r@ =~~= spec_exe45_rules(charset@.map_values(|s: String| s@)));
        assert forall|j: int| 0 <= j < r@.len() implies (#[trigger] r@[j]).pattern.len() > 0 by {
            assert(r@ == spec_exe45_rules(charset@.map_values(|s: String| s@)));
        }
    }
    r
}

fn byte1(a: u8) -> (r: Vec<u8>)
    ensures
        r@ == seq![a],
{
    let mut v: Vec<u8> = Vec::new();
    v.push(a);
    assert(v@ =~= seq![a]);
    v
}

fn byte2(a: u8, b: u8) -> (r: Vec<u8>)
    ensures
        r@ == seq![a, b],
{
    let mut v: Vec<u8> = Vec::new();
    v.push(a);
    v.push(b);
    assert(v@ =~= seq![a, b]);
    v
}

} // verus!
