//! The message that reports a build's results to a callback address.

use vstd::prelude::*;
use crate::messaging::events::{member, opt_text, opt_text_view};
use crate::messaging::json::{fields_view, get_spec, member_spec, JsonValue, JsonView};
use crate::state::{clone_opt_string, BuildOutput, BuildOutputView};

verus! {

/// The default way of reporting build results: one message to the callback
/// address.
pub struct DefaultBuildResultSender;

/// The message that reports the build output `o`.
pub open spec fn result_message_spec(o: BuildOutputView) -> JsonView {
    JsonView::Object(
        seq![
            ("action"@, JsonView::Str("build_result"@)),
            ("success"@, JsonView::Bool(o.success)),
            ("wasm_hash"@, opt_text_view(o.wasm_hash)),
            ("logs"@, JsonView::Array(o.build_logs.map_values(|l: Seq<char>| JsonView::Str(l)))),
            ("error"@, opt_text_view(o.error)),
            ("stdout"@, JsonView::Str(o.stdout)),
            ("stderr"@, JsonView::Str(o.stderr)),
        ],
    )
}

/// The log lines as a JSON array of strings.
fn log_array(logs: &Vec<String>) -> (j: JsonValue)
    ensures
        j.view() == JsonView::Array(
            crate::state::strings_view(*logs).map_values(|l: Seq<char>| JsonView::Str(l)),
        ),
{
    let mut items: Vec<JsonValue> = Vec::new();
    let mut i: usize = 0;
    while i < logs.len()
        invariant
            i <= logs.len(),
            items@.len() == i,
            forall|k: int| 0 <= k < i ==> (#[trigger] items@[k]).view() == JsonView::Str(logs@[k]@),
        decreases logs.len() - i,
    {
        items.push(JsonValue::Str(logs[i].clone()));
        i = i + 1;
    }
    let j = JsonValue::Array(items);
    proof {
        let want = crate::state::strings_view(*logs).map_values(|l: Seq<char>| JsonView::Str(l));
        match j.view() {
            JsonView::Array(got) => {
                assert(got =~= want);
            },
            _ => {},
        }
    }
    j
}

impl DefaultBuildResultSender {
    /// The message that reports `build_output` to the callback address.
    pub fn build_result_message(&self, build_output: &BuildOutput) -> (m: JsonValue)
        ensures
            m.view() == result_message_spec(build_output@),
    {
        let fields = vec![
            member("action", JsonValue::text("build_result")),
            member("success", JsonValue::Bool(build_output.success)),
            member("wasm_hash", opt_text(clone_opt_string(&build_output.wasm_hash))),
            member("logs", log_array(&build_output.build_logs)),
            member("error", opt_text(clone_opt_string(&build_output.error))),
            member("stdout", JsonValue::Str(build_output.stdout.clone())),
            member("stderr", JsonValue::Str(build_output.stderr.clone())),
        ];
        let ghost fv = fields_view(fields@);
        let m = JsonValue::object(fields);
        proof {
            assert(fv =~= seq![
                ("action"@, JsonView::Str("build_result"@)),
                ("success"@, JsonView::Bool(build_output.success)),
                ("wasm_hash"@, opt_text_view(build_output@.wasm_hash)),
                (
                    "logs"@,
                    JsonView::Array(
                        build_output@.build_logs.map_values(|l: Seq<char>| JsonView::Str(l)),
                    ),
                ),
                ("error"@, opt_text_view(build_output@.error)),
                ("stdout"@, JsonView::Str(build_output@.stdout)),
                ("stderr"@, JsonView::Str(build_output@.stderr)),
            ]);
        }
        m
    }
}

/// The result message of a build output `o` says `build_result`, and each of
/// its members is the matching field of `o`, whatever `o` holds: `success`,
/// `wasm_hash`, the log lines as `logs`, `error`, `stdout` and `stderr`.
pub proof fn law_result_message_carries_the_output(o: BuildOutputView)
    ensures
        get_spec(result_message_spec(o), "action"@) == Some(JsonView::Str("build_result"@)),
        get_spec(result_message_spec(o), "success"@) == Some(JsonView::Bool(o.success)),
        get_spec(result_message_spec(o), "wasm_hash"@) == Some(opt_text_view(o.wasm_hash)),
        get_spec(result_message_spec(o), "logs"@) matches Some(JsonView::Array(items)) && items.len()
            == o.build_logs.len() && forall|i: int|
            0 <= i < items.len() ==> #[trigger] items[i] == JsonView::Str(o.build_logs[i]),
        get_spec(result_message_spec(o), "error"@) == Some(opt_text_view(o.error)),
        get_spec(result_message_spec(o), "stdout"@) == Some(JsonView::Str(o.stdout)),
        get_spec(result_message_spec(o), "stderr"@) == Some(JsonView::Str(o.stderr)),
{
    reveal_strlit("action");
    reveal_strlit("success");
    reveal_strlit("wasm_hash");
    reveal_strlit("logs");
    reveal_strlit("error");
    reveal_strlit("stdout");
    reveal_strlit("stderr");
    let ks = seq!["action"@, "success"@, "wasm_hash"@, "logs"@, "error"@, "stdout"@, "stderr"@];
    assert forall|i: int, j: int| #![trigger ks[i], ks[j]] 0 <= i < j < 7 implies ks[i] != ks[j] by {
        if i <= 4 && j <= 4 {
            assert(ks[i][0] != ks[j][0] || ks[i].len() != ks[j].len());
        } else if i <= 4 {
            assert(ks[i][0] != ks[j][0] || ks[i][1] != ks[j][1]);
        } else {
            assert(ks[i][4] != ks[j][4]);
        }
    }
    let f = match result_message_spec(o) {
        JsonView::Object(f) => f,
        _ => Seq::empty(),
    };
    assert(f.len() == 7);
    assert forall|k: int| 0 <= k < 7 implies #[trigger] f[k].0 == ks[k] by {}
    assert forall|k: int| 0 <= k < 7 implies #[trigger] member_spec(f.skip(k), ks[k]) == Some(f[k].1) by {
        assert(f.skip(k)[0] == f[k]);
    }
    assert forall|k: int, m: int| 0 <= m < k < 7 implies #[trigger] member_spec(f.skip(m), ks[k]) == member_spec(
        f.skip(m + 1),
        ks[k],
    ) by {
        assert(f.skip(m)[0] == f[m]);
        assert(f.skip(m).drop_first() =~= f.skip(m + 1));
    }
    assert(f.skip(0) =~= f);
    let logs = o.build_logs.map_values(|l: Seq<char>| JsonView::Str(l));
    assert(f[3].1 == JsonView::Array(logs));
    // walk each key down to its position
    assert(member_spec(f, ks[0]) == Some(f[0].1));
    assert(member_spec(f, ks[1]) == member_spec(f.skip(1), ks[1]));
    assert(member_spec(f, ks[2]) == member_spec(f.skip(1), ks[2]));
    assert(member_spec(f.skip(1), ks[2]) == member_spec(f.skip(2), ks[2]));
    assert(member_spec(f, ks[3]) == member_spec(f.skip(1), ks[3]));
    assert(member_spec(f.skip(1), ks[3]) == member_spec(f.skip(2), ks[3]));
    assert(member_spec(f.skip(2), ks[3]) == member_spec(f.skip(3), ks[3]));
    assert(member_spec(f, ks[4]) == member_spec(f.skip(1), ks[4]));
    assert(member_spec(f.skip(1), ks[4]) == member_spec(f.skip(2), ks[4]));
    assert(member_spec(f.skip(2), ks[4]) == member_spec(f.skip(3), ks[4]));
    assert(member_spec(f.skip(3), ks[4]) == member_spec(f.skip(4), ks[4]));
    assert(member_spec(f, ks[5]) == member_spec(f.skip(1), ks[5]));
    assert(member_spec(f.skip(1), ks[5]) == member_spec(f.skip(2), ks[5]));
    assert(member_spec(f.skip(2), ks[5]) == member_spec(f.skip(3), ks[5]));
    assert(member_spec(f.skip(3), ks[5]) == member_spec(f.skip(4), ks[5]));
    assert(member_spec(f.skip(4), ks[5]) == member_spec(f.skip(5), ks[5]));
    assert(member_spec(f, ks[6]) == member_spec(f.skip(1), ks[6]));
    assert(member_spec(f.skip(1), ks[6]) == member_spec(f.skip(2), ks[6]));
    assert(member_spec(f.skip(2), ks[6]) == member_spec(f.skip(3), ks[6]));
    assert(member_spec(f.skip(3), ks[6]) == member_spec(f.skip(4), ks[6]));
    assert(member_spec(f.skip(4), ks[6]) == member_spec(f.skip(5), ks[6]));
    assert(member_spec(f.skip(5), ks[6]) == member_spec(f.skip(6), ks[6]));
}

} // verus!
