//! The game-script message parser: turns the byte-coded text scripts found
//! in a ROM into readable chunks.
//!
//! A parser is a list of rules, each mapping a byte pattern to an action:
//! stop parsing, emit a piece of text, or emit a command that consumes a
//! fixed number of argument bytes.  At each position the first rule whose
//! pattern matches wins; a byte no rule covers is an error.

use vstd::prelude::*;

verus! {

/// What a matched pattern does.
pub enum RuleAction {
    /// End of the message.
    Stop,
    /// Emit this text.
    Text { text: String },
    /// Emit a command that takes `arg_len` argument bytes after the
    /// pattern.
    Command { arg_len: usize },
}

/// One rule: a byte pattern and its action.
pub struct Rule {
    pub pattern: Vec<u8>,
    pub action: RuleAction,
}

/// A parsed piece of a message.
#[derive(Debug, PartialEq, Eq)]
pub enum Chunk {
    /// Readable text.
    Text { text: String },
    /// A control command: the pattern that introduced it and its argument
    /// bytes.
    Command { op: Vec<u8>, params: Vec<u8> },
}

/// Why a byte script could not be parsed.
#[derive(Clone, Copy, Debug, PartialEq, Eq)]
pub enum MsgParseError {
    /// No rule covers the byte at this offset.
    UnknownByte { at: usize },
    /// The script ends inside a command's argument bytes.
    Truncated,
}

/// The mathematical content of an action.
pub enum RuleActionView {
    Stop,
    Text { text: Seq<char> },
    Command { arg_len: nat },
}

/// The mathematical content of a rule.
pub struct RuleView {
    pub pattern: Seq<u8>,
    pub action: RuleActionView,
}

/// The mathematical content of a chunk.
pub enum ChunkView {
    Text { text: Seq<char> },
    Command { op: Seq<u8>, params: Seq<u8> },
}

impl View for RuleAction {
    type V = RuleActionView;

    open spec fn view(&self) -> RuleActionView {
        match self {
            RuleAction::Stop => RuleActionView::Stop,
            RuleAction::Text { text } => RuleActionView::Text { text: text@ },
            RuleAction::Command { arg_len } => RuleActionView::Command { arg_len: *arg_len as nat },
        }
    }
}

impl View for Rule {
    type V = RuleView;

    open spec fn view(&self) -> RuleView {
        RuleView { pattern: self.pattern@, action: self.action@ }
    }
}

impl View for Chunk {
    type V = ChunkView;

    open spec fn view(&self) -> ChunkView {
        match self {
            Chunk::Text { text } => ChunkView::Text { text: text@ },
            Chunk::Command { op, params } => ChunkView::Command { op: op@, params: params@ },
        }
    }
}

/// Whether `pat` occurs in `data` at position `i`.
pub open spec fn spec_prefix_at(pat: Seq<u8>, data: Seq<u8>, i: int) -> bool {
    &&& i + pat.len() <= data.len()
    &&& data.subrange(i, i + pat.len() as int) == pat
}

/// The first rule (in rule order) whose pattern matches at `i`.
pub open spec fn spec_first_match(rules: Seq<RuleView>, data: Seq<u8>, i: int) -> Option<int>
    decreases rules.len(),
{
    if rules.len() == 0 {
        None
    } else if spec_prefix_at(rules[0].pattern, data, i) {
        Some(0)
    } else {
        match spec_first_match(rules.drop_first(), data, i) {
            Some(j) => Some(j + 1),
            None => None,
        }
    }
}

/// Every pattern consumes at least one byte, so parsing advances.
pub open spec fn spec_rules_wf(rules: Seq<RuleView>) -> bool {
    forall|j: int| 0 <= j < rules.len() ==> (#[trigger] rules[j]).pattern.len() > 0
}

/// What parsing from position `i` yields.
pub open spec fn spec_parse_from(rules: Seq<RuleView>, data: Seq<u8>, i: int) -> Result<
    Seq<ChunkView>,
    MsgParseError,
>
    recommends
        spec_rules_wf(rules),
        0 <= i <= data.len(),
    decreases data.len() - i,
{
    if i >= data.len() {
        Ok(Seq::empty())
    } else {
        match spec_first_match(rules, data, i) {
            None => Err(MsgParseError::UnknownByte { at: i as usize }),
            Some(j) => {
                let pat = rules[j].pattern;
                match rules[j].action {
                    RuleActionView::Stop => Ok(Seq::empty()),
                    RuleActionView::Text { text } => {
                        if i + pat.len() <= data.len() && pat.len() > 0 {
                            match spec_parse_from(rules, data, i + pat.len()) {
                                Ok(rest) => Ok(seq![ChunkView::Text { text }] + rest),
                                Err(e) => Err(e),
                            }
                        } else {
                            Err(MsgParseError::Truncated)
                        }
                    },
                    RuleActionView::Command { arg_len } => {
                        if i + pat.len() + arg_len <= data.len() && pat.len() > 0 {
                            match spec_parse_from(rules, data, i + pat.len() + arg_len) {
                                Ok(rest) => Ok(
                                    seq![
                                        ChunkView::Command {
                                            op: pat,
                                            params: data.subrange(
                                                i + pat.len(),
                                                i + pat.len() + arg_len,
                                            ),
                                        },
                                    ] + rest,
                                ),
                                Err(e) => Err(e),
                            }
                        } else {
                            Err(MsgParseError::Truncated)
                        }
                    },
                }
            },
        }
    }
}

/// What a successful first match guarantees: the rule exists and its
/// pattern is present at the position.
pub proof fn lemma_first_match_props(rules: Seq<RuleView>, data: Seq<u8>, i: int)
    ensures
        spec_first_match(rules, data, i) matches Some(j) ==> {
            &&& 0 <= j < rules.len()
            &&& spec_prefix_at(rules[j].pattern, data, i)
        },
    decreases rules.len(),
{
    if rules.len() > 0 {
        lemma_first_match_props(rules.drop_first(), data, i);
    }
}

/// The views of a rule list.
pub open spec fn rules_view(rules: Seq<Rule>) -> Seq<RuleView> {
    rules.map_values(|r: Rule| r@)
}

/// A message-script parser: an ordered rule list.
pub struct Parser {
    pub rules: Vec<Rule>,
}

impl View for Parser {
    type V = Seq<RuleView>;

    open spec fn view(&self) -> Seq<RuleView> {
        rules_view(self.rules@)
    }
}

/// Builds a parser rule by rule; rules match in the order they are added.
pub struct ParserBuilder {
    pub rules: Vec<Rule>,
}

impl View for ParserBuilder {
    type V = Seq<RuleView>;

    open spec fn view(&self) -> Seq<RuleView> {
        rules_view(self.rules@)
    }
}

impl ParserBuilder {
    /// End the message at this pattern.
    pub fn add_stop_rule(self, pattern: &[u8]) -> (r: ParserBuilder)
        requires
            pattern@.len() > 0,
        ensures
            r@ == self@.push(RuleView { pattern: pattern@, action: RuleActionView::Stop }),
    {
        let mut rules = self.rules;
        rules.push(Rule { pattern: slice_to_vec(pattern), action: RuleAction::Stop });
        let r = ParserBuilder { rules };
        proof {
            assert(r@ =~= self@.push(
                RuleView { pattern: pattern@, action: RuleActionView::Stop },
            ));
        }
        r
    }

    /// Map each charset entry's index byte (below `max`) to its text.
    pub fn add_charset_rules(self, charset: &Vec<String>, max: u8) -> (r: ParserBuilder)
        ensures
            r@.len() == self@.len() + spec_charset_count(charset@.map_values(|s: String| s@), max),
            forall|j: int| 0 <= j < self@.len() ==> #[trigger] r@[j] == self@[j],
            forall|j: int|
                self@.len() <= j < r@.len() ==> #[trigger] r@[j] == (RuleView {
                    pattern: seq![(j - self@.len()) as u8],
                    action: RuleActionView::Text {
                        text: charset@.map_values(|s: String| s@)[j - self@.len()],
                    },
                }),
    {
        let mut rules = self.rules;
        let ghost orig = self@;
        let n: usize = if charset.len() < (max as usize) {
            charset.len()
        } else {
            max as usize
        };
        let mut i: usize = 0;
        while i < n
            invariant
                n == spec_charset_count(charset@.map_values(|s: String| s@), max),
                n <= charset@.len(),
                0 <= i <= n,
                rules_view(rules@).len() == orig.len() + i,
                forall|j: int|
                    0 <= j < orig.len() ==> #[trigger] rules_view(rules@)[j] == orig[j],
                forall|j: int|
                    orig.len() <= j < orig.len() + i ==> #[trigger] rules_view(rules@)[j] == (
                    RuleView {
                        pattern: seq![(j - orig.len()) as u8],
                        action: RuleActionView::Text {
                            text: charset@.map_values(|s: String| s@)[j - orig.len()],
                        },
                    }),
            decreases n - i,
        {
            let mut pat: Vec<u8> = Vec::new();
            pat.push(i as u8);
            assert(pat@ =~= seq![i as u8]);
            let entry: String = charset[i].clone();
            let newrule = Rule { pattern: pat, action: RuleAction::Text { text: entry } };
            let ghost prev_rules = rules@;
            let ghost nrv = newrule@;
            rules.push(newrule);
            proof {
                assert(rules_view(rules@) =~= rules_view(prev_rules).push(nrv));
                assert(charset@.map_values(|s: String| s@)[i as int] == charset@[i as int]@);
            }
            i = i + 1;
        }
        ParserBuilder { rules }
    }

    /// Map a pattern to a fixed piece of text.
    pub fn add_text_rule(self, pattern: &[u8], text: &str) -> (r: ParserBuilder)
        requires
            pattern@.len() > 0,
        ensures
            r@ == self@.push(
                RuleView { pattern: pattern@, action: RuleActionView::Text { text: text@ } },
            ),
    {
        let mut rules = self.rules;
        rules.push(
            Rule { pattern: slice_to_vec(pattern), action: RuleAction::Text { text: text.to_owned() } },
        );
        let r = ParserBuilder { rules };
        proof {
            assert(r@ =~= self@.push(
                RuleView { pattern: pattern@, action: RuleActionView::Text { text: text@ } },
            ));
        }
        r
    }

    /// Map a pattern to a command taking `arg_len` argument bytes.
    pub fn add_command_rule(self, pattern: &[u8], arg_len: usize) -> (r: ParserBuilder)
        requires
            pattern@.len() > 0,
        ensures
            r@ == self@.push(
                RuleView {
                    pattern: pattern@,
                    action: RuleActionView::Command { arg_len: arg_len as nat },
                },
            ),
    {
        let mut rules = self.rules;
        rules.push(
            Rule { pattern: slice_to_vec(pattern), action: RuleAction::Command { arg_len } },
        );
        let r = ParserBuilder { rules };
        proof {
            assert(r@ =~= self@.push(
                RuleView {
                    pattern: pattern@,
                    action: RuleActionView::Command { arg_len: arg_len as nat },
                },
            ));
        }
        r
    }

    /// Finish: the parser with exactly the added rules.
    pub fn build(self) -> (r: Parser)
        ensures
            r@ == self@,
    {
        Parser { rules: self.rules }
    }
}

/// How many charset rules a charset of this size yields under `max`.
pub open spec fn spec_charset_count(cs: Seq<Seq<char>>, max: u8) -> nat {
    if cs.len() < max {
        cs.len()
    } else {
        max as nat
    }
}

fn slice_to_vec(s: &[u8]) -> (r: Vec<u8>)
    ensures
        r@ == s@,
{
    let mut out: Vec<u8> = Vec::new();
    let mut i: usize = 0;
    while i < s.len()
        invariant
            0 <= i <= s@.len(),
            out@ == s@.subrange(0, i as int),
        decreases s@.len() - i,
    {
        out.push(s[i]);
        i = i + 1;
        assert(out@ =~= s@.subrange(0, i as int));
    }
    assert(out@ =~= s@);
    out
}

impl Parser {
    /// An empty builder.
    pub fn builder() -> (r: ParserBuilder)
        ensures
            r@ == Seq::<RuleView>::empty(),
    {
        let r = ParserBuilder { rules: Vec::new() };
        proof {
            assert(r@ =~= Seq::<RuleView>::empty());
        }
        r
    }

    /// Whether rule `j` matches at position `i`.
    fn rule_matches(&self, j: usize, data: &[u8], i: usize) -> (r: bool)
        requires
            j < self@.len(),
        ensures
            r == spec_prefix_at(self@[j as int].pattern, data@, i as int),
    {
        let pat = &self.rules[j].pattern;
        let dlen = data.len();
        if pat.len() > dlen || i > dlen - pat.len() {
            return false;
        }
        let mut k: usize = 0;
        while k < pat.len()
            invariant
                j < self.rules@.len(),
                pat == self.rules@[j as int].pattern,
                dlen == data@.len(),
                i + pat@.len() <= data@.len(),
                0 <= k <= pat@.len(),
                forall|m: int| 0 <= m < k ==> data@[i + m] == pat@[m],
            decreases pat@.len() - k,
        {
            if data[i + k] != pat[k] {
                proof {
                    assert(data@.subrange(i as int, i + pat@.len() as int)[k as int] != pat@[k as int]);
                }
                return false;
            }
            k = k + 1;
        }
        proof {
            assert(data@.subrange(i as int, i + pat@.len() as int) =~= pat@);
            assert(self@[j as int].pattern == pat@);
        }
        true
    }

    /// The first matching rule at position `i`, in rule order.
    fn find_rule(&self, data: &[u8], i: usize) -> (r: Option<usize>)
        ensures
            match r {
                Some(j) => {
                    &&& spec_first_match(self@, data@, i as int) == Some(j as int)
                    &&& j < self@.len()
                },
                None => spec_first_match(self@, data@, i as int) is None,
            },
    {
        let mut j: usize = 0;
        proof {
            assert(self@.skip(0) =~= self@);
        }
        while j < self.rules.len()
            invariant
                j <= self@.len(),
                self@.len() == self.rules@.len(),
                spec_first_match(self@, data@, i as int) == match spec_first_match(
                    self@.skip(j as int),
                    data@,
                    i as int,
                ) {
                    Some(m) => Some(m + j),
                    None => None::<int>,
                },
            decreases self@.len() - j,
        {
            let hit = self.rule_matches(j, data, i);
            proof {
                assert(self@.skip(j as int)[0] == self@[j as int]);
                assert(self@.skip(j as int).drop_first() =~= self@.skip(j + 1));
            }
            if hit {
                return Some(j);
            }
            j = j + 1;
        }
        proof {
            assert(self@.skip(j as int).len() == 0);
        }
        None
    }

    /// Parse a byte script into chunks, stopping at the stop rule or the
    /// end of the input.  Exactly the scripts `spec_parse_from` accepts are
    /// accepted, with exactly its chunks; a byte no rule covers or a
    /// command cut short by the end of the script is an error.
    pub fn parse(&self, data: &[u8]) -> (r: Result<Vec<Chunk>, MsgParseError>)
        requires
            spec_rules_wf(self@),
        ensures
            match r {
                Ok(chunks) => spec_parse_from(self@, data@, 0) == Ok::<Seq<ChunkView>, MsgParseError>(
                    chunks@.map_values(|c: Chunk| c@),
                ),
                Err(e) => spec_parse_from(self@, data@, 0) == Err::<Seq<ChunkView>, MsgParseError>(
                    e,
                ),
            },
    {
        let mut chunks: Vec<Chunk> = Vec::new();
        let mut i: usize = 0;
        let dlen = data.len();
        loop
            invariant
                spec_rules_wf(self@),
                dlen == data@.len(),
                0 <= i <= data@.len(),
                spec_parse_from(self@, data@, 0) == (match spec_parse_from(self@, data@, i as int) {
                    Ok(rest) => Ok::<Seq<ChunkView>, MsgParseError>(
                        chunks@.map_values(|c: Chunk| c@) + rest,
                    ),
                    Err(e) => Err::<Seq<ChunkView>, MsgParseError>(e),
                }),
            decreases data@.len() - i,
        {
            if i >= dlen {
                proof {
                    assert(chunks@.map_values(|c: Chunk| c@) + Seq::<ChunkView>::empty()
                        =~= chunks@.map_values(|c: Chunk| c@));
                }
                return Ok(chunks);
            }
            let j = match self.find_rule(data, i) {
                None => {
                    return Err(MsgParseError::UnknownByte { at: i });
                },
                Some(j) => j,
            };
            proof {
                lemma_first_match_props(self@, data@, i as int);
            }
            let plen = self.rules[j].pattern.len();
            assert(i + plen <= dlen);
            match &self.rules[j].action {
                RuleAction::Stop => {
                    proof {
                        assert(chunks@.map_values(|c: Chunk| c@) + Seq::<ChunkView>::empty()
                            =~= chunks@.map_values(|c: Chunk| c@));
                    }
                    return Ok(chunks);
                },
                RuleAction::Text { text } => {
                    let ghost before = chunks@.map_values(|c: Chunk| c@);
                    chunks.push(Chunk::Text { text: text.clone() });
                    proof {
                        assert(chunks@.map_values(|c: Chunk| c@) =~= before + seq![
                            ChunkView::Text { text: text@ },
                        ]);
                        assert forall|rest: Seq<ChunkView>|
                            true implies (before + (seq![ChunkView::Text { text: text@ }] + rest))
                            =~= (before + seq![ChunkView::Text { text: text@ }]) + rest by {}
                    }
                    i = i + plen;
                },
                RuleAction::Command { arg_len } => {
                    let avail: usize = dlen - i;
                    if *arg_len > avail - plen {
                        return Err(MsgParseError::Truncated);
                    }
                    let need: usize = plen + *arg_len;
                    let op = slice_to_vec(self.rules[j].pattern.as_slice());
                    let params = copy_slice_range(data, i + plen, *arg_len);
                    let ghost before = chunks@.map_values(|c: Chunk| c@);
                    let ghost cv = ChunkView::Command {
                        op: self@[j as int].pattern,
                        params: data@.subrange(
                            i + plen as int,
                            i + plen + *arg_len as int,
                        ),
                    };
                    chunks.push(Chunk::Command { op, params });
                    proof {
                        assert(chunks@.map_values(|c: Chunk| c@) =~= before + seq![cv]);
                        assert forall|rest: Seq<ChunkView>|
                            true implies (before + (seq![cv] + rest)) =~= (before + seq![cv])
                            + rest by {}
                    }
                    i = i + need;
                },
            }
        }
    }
}

fn copy_slice_range(s: &[u8], start: usize, len: usize) -> (r: Vec<u8>)
    requires
        start + len <= s@.len(),
    ensures
        r@ == s@.subrange(start as int, start + len),
{
    let slen = s.len();
    let mut out: Vec<u8> = Vec::new();
    let mut i: usize = 0;
    while i < len
        invariant
            start + len <= slen == s@.len(),
            0 <= i <= len,
            out@ == s@.subrange(start as int, start + i),
        decreases len - i,
    {
        out.push(s[start + i]);
        i = i + 1;
        assert(out@ =~= s@.subrange(start as int, start + i));
    }
    out
}

} // verus!
