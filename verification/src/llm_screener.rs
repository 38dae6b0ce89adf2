//! The natural-language screener entry: the system prompt that asks a
//! model for a single `Filter` JSON object, and the stripping of a markdown
//! code fence around the model's answer before it is parsed.

use vstd::prelude::*;

use crate::text::{
    chars_of, ends_with_chars, has_infix, has_prefix, has_suffix, owned, starts_with_chars, trim,
    trim_end, trim_start, trimmed,
};
use vstd::string::{StrSliceExecFns, StringExecFns};

verus! {

/// The system prompt up to the user requirement, which follows it verbatim:
/// the single-JSON-object output contract, the tagged-union `Filter`
/// schema with every variant and unit convention, a worked example and the
/// numeric constraints.
pub const SCREENER_PROMPT_HEAD: &'static str = r#"你是 A 股选股条件生成助手。请严格输出单个 JSON 对象，表示一个选股 Filter AST（serde tagged-union 格式）。禁止输出 markdown 代码围栏、注释或任何多余文字。

Filter AST 是递归结构，JSON 中每一层只保留一个键：
{"Meta": {...}}        元数据约束（MetaCond）
{"Series": {...}}      行情序列条件（SeriesCond）
{"And": [Filter, ...]} 全部子条件同时满足
{"Or": [Filter, ...]}  任一子条件满足即可
{"Not": {...}}         对内部 Filter 取反

MetaCond 变体（作为 Meta 的值）：
- "Industry": ["白酒", "银行", ...]  行业属于集合（OR 语义；空集合 = 不限行业）
- "Exchange": ["SH", "SZ", "BJ"]     交易所属于集合
- "Board": ["主板", "创业板"]         板块属于集合
- "ListYears": 3                     上市满 N 年
- "Delisted": false                  是否包含退市股（false = 排除退市股）
- "MarketCap": {"min": 100.0, "max": 5000.0}   市值范围，单位亿元；单边可省略（缺省一侧 = 无界）

SeriesFactor 因子（作为因子值）：
- "Close"                   最新复权收盘价
- "Sma": 20                 N 日简单移动平均
- "ChangePct": 20           N 日涨跌幅（%）
- "DayPct"                  单日涨跌幅（%）
- "AvgVolume": 10           N 日平均成交量
- "NDayHigh": 120           N 日最高价

CmpOp 比较符（snake_case）："eq" / "ne" / "gt" / "ge" / "lt" / "le"

SeriesCond 变体（作为 Series 的值）：
- "Cmp": {"factor": <SeriesFactor>, "op": <CmpOp>, "value": {"Const": 数值} 或 {"Factor": <SeriesFactor>}}   因子与参考值比较
- "UpDays": {"n": 5, "min_pct": 3.0}   连续 n 天每天涨幅 > min_pct（%，n >= 1）
- "Count": {"factor": <SeriesFactor>, "op": <CmpOp>, "value": ..., "window": 10, "at_least": 5}   最近 window 天中至少 at_least 天满足比较（1 <= at_least <= window）
- "VolumeSurge": {"days": 10, "times": 2.0}   最近 days 日平均成交量不低于基线 times 倍（days >= 1）

单位约定：市值一律用亿元，涨跌幅一律用 %，A 股红涨绿跌。

完整示例：用户需求"最近5天每天涨超3%"应输出：
{"Series":{"UpDays":{"n":5,"min_pct":3.0}}}

数值约束（必须遵守）：
- 窗口类参数（Sma/ChangePct/AvgVolume/NDayHigh 的 n、UpDays.n、Count.window/at_least、VolumeSurge.days）>= 1
- 所有浮点数必须是有限数，禁止 NaN / Infinity（含 min_pct、times、Const 值、MarketCap 边界）
- MarketCap 的 min <= max（两侧均给出时）

只输出单个 JSON 对象本身，不要任何解释文字。

用户需求："#;

/// Build the system prompt for a free-text screener request: the prompt
/// head followed by the request itself.
pub fn build_screener_prompt(description: &str) -> (r: String)
    ensures
        r@ == SCREENER_PROMPT_HEAD@ + description@,
{
    let mut p = owned(SCREENER_PROMPT_HEAD);
    p.append(description);
    p
}

/// The fence marker of a markdown code block.
pub open spec fn fence() -> Seq<char> {
    seq!['`', '`', '`']
}

/// `i` is the position of the first `c` in `s`.
pub open spec fn is_first_index(s: Seq<char>, c: char, i: int) -> bool {
    &&& 0 <= i < s.len()
    &&& s[i] == c
    &&& forall|j: int| 0 <= j < i ==> s[j] != c
}

/// The text between the opening fence line and the closing fence of `t`.
pub open spec fn fenced_body(t: Seq<char>) -> Seq<char> {
    if t.contains('\n') {
        let i = choose|i: int| is_first_index(t, '\n', i);
        let after = t.subrange(i + 1, t.len() as int);
        if has_suffix(after, fence()) {
            trim(after.subrange(0, after.len() - 3))
        } else {
            trim(after)
        }
    } else {
        Seq::empty()
    }
}

/// A model answer with a surrounding code fence removed: the trimmed answer
/// when it is not fenced, otherwise the trimmed text between the opening
/// fence line (` ```json ` or bare ` ``` `) and the closing fence, and
/// nothing when the fence has no line break.
pub open spec fn strip_code_fence_spec(content: Seq<char>) -> Seq<char> {
    let t = trim(content);
    if has_prefix(t, fence()) && has_suffix(t, fence()) {
        fenced_body(t)
    } else {
        t
    }
}

/// The fence marker as characters.
fn fence_chars() -> (v: Vec<char>)
    ensures
        v@ == fence(),
{
    let v = vec!['`', '`', '`'];
    assert(v@ =~= fence());
    v
}

/// Position of the first `c` in `v`, or `v.len()` when there is none.
fn first_index_of(v: &Vec<char>, c: char) -> (r: usize)
    ensures
        r <= v@.len(),
        r < v@.len() ==> is_first_index(v@, c, r as int),
        r == v@.len() ==> !v@.contains(c),
{
    let mut i: usize = 0;
    while i < v.len()
        invariant
            i <= v@.len(),
            forall|j: int| 0 <= j < i ==> v@[j] != c,
        decreases v@.len() - i,
    {
        if v[i] == c {
            return i;
        }
        i = i + 1;
    }
    i
}

/// Strip a surrounding markdown code fence from a model answer.
pub fn strip_code_fence(content: &str) -> (r: &str)
    ensures
        r@ == strip_code_fence_spec(content@),
{
    let t = trimmed(content);
    let v = chars_of(t);
    let f = fence_chars();
    if starts_with_chars(&v, &f) && ends_with_chars(&v, &f) {
        let i = first_index_of(&v, '\n');
        if i < v.len() {
            proof {
                let k = choose|k: int| is_first_index(v@, '\n', k);
                assert(is_first_index(v@, '\n', i as int));
                if k != i as int {
                    if k < i {
                        assert(v@[k] != '\n');
                    } else {
                        assert(v@[i as int] != '\n');
                    }
                }
                assert(v@.contains('\n'));
            }
            let after = t.substring_char(i + 1, v.len());
            let av = chars_of(after);
            if ends_with_chars(&av, &f) {
                let body = after.substring_char(0, av.len() - 3);
                trimmed(body)
            } else {
                trimmed(after)
            }
        } else {
            proof {
                reveal_strlit("");
            }
            ""
        }
    } else {
        t
    }
}

/// The prompt ends with the user's request, verbatim.
pub proof fn lemma_prompt_ends_with_description(description: Seq<char>)
    ensures
        crate::text::has_suffix(SCREENER_PROMPT_HEAD@ + description, description),
{
    let p = SCREENER_PROMPT_HEAD@ + description;
    assert(p.subrange(p.len() - description.len(), p.len() as int) =~= description);
}

/// A character that occurs has a first occurrence.
proof fn lemma_first_index_exists(s: Seq<char>, c: char, j: int)
    requires
        0 <= j < s.len(),
        s[j] == c,
    ensures
        exists|i: int| is_first_index(s, c, i),
    decreases j,
{
    if exists|k: int| 0 <= k < j && s[k] == c {
        let k = choose|k: int| 0 <= k < j && s[k] == c;
        lemma_first_index_exists(s, c, k);
    } else {
        assert(is_first_index(s, c, j));
    }
}

/// What stripping leaves is already trimmed and is a contiguous part of
/// the answer (so the stripping never invents text).
pub proof fn lemma_strip_code_fence_trimmed_part(content: Seq<char>)
    ensures
        trim(strip_code_fence_spec(content)) == strip_code_fence_spec(content),
        has_infix(content, strip_code_fence_spec(content)),
{
    let r = strip_code_fence_spec(content);
    let (a, b) = crate::text::lemma_trim_subrange(content);
    let t = trim(content);
    crate::text::lemma_trim_idempotent(content);
    if has_prefix(t, fence()) && has_suffix(t, fence()) && t.contains('\n') {
        let j = choose|j: int| 0 <= j < t.len() && t[j] == '\n';
        lemma_first_index_exists(t, '\n', j);
        let i = choose|i: int| is_first_index(t, '\n', i);
        let after = t.subrange(i + 1, t.len() as int);
        assert(after =~= content.subrange(a + i + 1, b));
        let body = if has_suffix(after, fence()) {
            after.subrange(0, after.len() - 3)
        } else {
            after
        };
        let e = if has_suffix(after, fence()) {
            b - 3
        } else {
            b
        };
        assert(body =~= content.subrange(a + i + 1, e));
        let (c, d) = crate::text::lemma_trim_subrange(body);
        crate::text::lemma_trim_idempotent(body);
        let start = a + i + 1 + c;
        assert(r == trim(body));
        assert(r =~= content.subrange(start, start + (d - c)));
        assert(crate::text::occurs_at(content, r, start));
    } else if has_prefix(t, fence()) && has_suffix(t, fence()) {
        assert(r =~= Seq::<char>::empty());
        assert(trim(Seq::<char>::empty()) =~= Seq::<char>::empty());
        assert(content.subrange(0, 0) =~= r);
        assert(crate::text::occurs_at(content, r, 0));
    } else {
        assert(crate::text::occurs_at(content, r, a));
    }
}

/// A model answer wrapped in a code fence (` ```json ` or bare ` ``` `,
/// `tag` being what follows the opening fence on its line) strips to the
/// same text as the unwrapped answer, when the unwrapped answer is not
/// itself fenced.
pub proof fn lemma_fenced_answer_strips_like_bare(s: Seq<char>, tag: Seq<char>)
    requires
        forall|j: int| 0 <= j < tag.len() ==> tag[j] != '\n',
        !(has_prefix(trim(s), fence()) && has_suffix(trim(s), fence())),
    ensures
        strip_code_fence_spec(fence() + tag + seq!['\n'] + s + seq!['\n'] + fence())
            == strip_code_fence_spec(s),
{
    let w = fence() + tag + seq!['\n'] + s + seq!['\n'] + fence();
    let n = w.len();
    assert(w[0] == '`');
    assert(w[n - 1] == '`');
    assert(trim_start(w) == w);
    assert(trim_end(w) == w);
    assert(trim(w) == w);
    assert(w.subrange(0, 3) =~= fence());
    assert(w.subrange(n - 3, n as int) =~= fence());
    let i: int = 3 + tag.len() as int;
    assert(w[i] == '\n');
    assert forall|j: int| 0 <= j < i implies w[j] != '\n' by {
        if j >= 3 {
            assert(w[j] == tag[j - 3]);
        }
    }
    assert(is_first_index(w, '\n', i));
    assert(w.contains('\n'));
    let k = choose|k: int| is_first_index(w, '\n', k);
    if k < i {
        assert(w[k] != '\n');
    } else if k > i {
        assert(w[i] != '\n');
    }
    let after = w.subrange(i + 1, n as int);
    assert(after =~= s + seq!['\n'] + fence());
    assert(after.subrange(after.len() - 3, after.len() as int) =~= fence());
    assert(after.subrange(0, after.len() - 3) =~= s.push('\n'));
    crate::text::lemma_trim_push_space(s, '\n');
}

} // verus!
