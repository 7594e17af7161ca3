use vstd::prelude::*;

verus! {

/// `kp:`, before the proportional gain.
pub open spec fn kp_label() -> Seq<u8> {
    seq![0x6bu8, 0x70u8, 0x3au8]
}

/// ` ki:`, before the integral gain.
pub open spec fn ki_label() -> Seq<u8> {
    seq![0x20u8, 0x6bu8, 0x69u8, 0x3au8]
}

/// ` kd:`, before the derivative gain.
pub open spec fn kd_label() -> Seq<u8> {
    seq![0x20u8, 0x6bu8, 0x64u8, 0x3au8]
}

/// ` sa:`, before the measured speed of motor A.
pub open spec fn sa_label() -> Seq<u8> {
    seq![0x20u8, 0x73u8, 0x61u8, 0x3au8]
}

/// ` sb:`, before the measured speed of motor B.
pub open spec fn sb_label() -> Seq<u8> {
    seq![0x20u8, 0x73u8, 0x62u8, 0x3au8]
}

/// ` ta:`, before the target speed of motor A.
pub open spec fn ta_label() -> Seq<u8> {
    seq![0x20u8, 0x74u8, 0x61u8, 0x3au8]
}

/// ` tb:`, before the target speed of motor B.
pub open spec fn tb_label() -> Seq<u8> {
    seq![0x20u8, 0x74u8, 0x62u8, 0x3au8]
}

/// The carriage return and line feed that end the report.
pub open spec fn report_end() -> Seq<u8> {
    seq![0x0du8, 0x0au8]
}

/// The status report: each value's text after its label, in a fixed order,
/// and a line end.
pub open spec fn report_spec(
    kp: Seq<u8>,
    ki: Seq<u8>,
    kd: Seq<u8>,
    speed_a: Seq<u8>,
    speed_b: Seq<u8>,
    target_a: Seq<u8>,
    target_b: Seq<u8>,
) -> Seq<u8> {
    kp_label() + kp + ki_label() + ki + kd_label() + kd + sa_label() + speed_a + sb_label()
        + speed_b + ta_label() + target_a + tb_label() + target_b + report_end()
}

/// Appends `bytes` to `out`.
fn append(out: &mut Vec<u8>, bytes: &[u8])
    ensures
        final(out)@ == old(out)@ + bytes@,
{
    let ghost start = out@;
    let mut i: usize = 0;
    while i < bytes.len()
        invariant
            0 <= i <= bytes.len(),
            out@ == start + bytes@.take(i as int),
        decreases bytes.len() - i,
    {
        out.push(bytes[i]);
        i = i + 1;
        assert(out@ =~= start + bytes@.take(i as int));
    }
    assert(bytes@.take(bytes.len() as int) =~= bytes@);
}

/// Appends a label of three or four bytes to `out` (`fourth` is left out
/// when it is `None`).
fn append_label(out: &mut Vec<u8>, first: u8, second: u8, third: u8, fourth: Option<u8>)
    ensures
        final(out)@ == old(out)@ + match fourth {
            Some(last) => seq![first, second, third, last],
            None => seq![first, second, third],
        },
{
    let ghost start = out@;
    out.push(first);
    out.push(second);
    out.push(third);
    match fourth {
        Some(last) => {
            out.push(last);
            assert(out@ =~= start + seq![first, second, third, last]);
        },
        None => {
            assert(out@ =~= start + seq![first, second, third]);
        },
    }
}

/// The status report for the given texts of the gains, the measured speeds
/// and the target speeds.
pub fn status_report(
    kp: &[u8],
    ki: &[u8],
    kd: &[u8],
    speed_a: &[u8],
    speed_b: &[u8],
    target_a: &[u8],
    target_b: &[u8],
) -> (report: Vec<u8>)
    ensures
        report@ == report_spec(kp@, ki@, kd@, speed_a@, speed_b@, target_a@, target_b@),
        report@ == seq![0x6bu8, 0x70u8, 0x3au8] + kp@ + seq![0x20u8, 0x6bu8, 0x69u8, 0x3au8] + ki@
            + seq![0x20u8, 0x6bu8, 0x64u8, 0x3au8] + kd@ + seq![0x20u8, 0x73u8, 0x61u8, 0x3au8]
            + speed_a@ + seq![0x20u8, 0x73u8, 0x62u8, 0x3au8] + speed_b@
            + seq![0x20u8, 0x74u8, 0x61u8, 0x3au8] + target_a@
            + seq![0x20u8, 0x74u8, 0x62u8, 0x3au8] + target_b@ + seq![0x0du8, 0x0au8],
{
    let mut out: Vec<u8> = Vec::new();
    append_label(&mut out, 0x6b, 0x70, 0x3a, None);
    append(&mut out, kp);
    append_label(&mut out, 0x20, 0x6b, 0x69, Some(0x3a));
    append(&mut out, ki);
    append_label(&mut out, 0x20, 0x6b, 0x64, Some(0x3a));
    append(&mut out, kd);
    append_label(&mut out, 0x20, 0x73, 0x61, Some(0x3a));
    append(&mut out, speed_a);
    append_label(&mut out, 0x20, 0x73, 0x62, Some(0x3a));
    append(&mut out, speed_b);
    append_label(&mut out, 0x20, 0x74, 0x61, Some(0x3a));
    append(&mut out, target_a);
    append_label(&mut out, 0x20, 0x74, 0x62, Some(0x3a));
    append(&mut out, target_b);
    let ghost before_end = out@;
    out.push(0x0d);
    out.push(0x0a);
    assert(out@ =~= before_end + report_end());
    assert(out@ =~= report_spec(kp@, ki@, kd@, speed_a@, speed_b@, target_a@, target_b@));
    proof {
        lemma_report_layout(kp@, ki@, kd@, speed_a@, speed_b@, target_a@, target_b@);
    }
    out
}

/// The report is, byte for byte, `kp:` and the proportional gain's text,
/// ` ki:` and the integral gain's, ` kd:` and the derivative gain's, ` sa:` and
/// motor A's measured speed, ` sb:` and motor B's, ` ta:` and motor A's target
/// speed, ` tb:` and motor B's, then a carriage return and a line feed; so the
/// text right after each label is the value that belongs to it, and the field
/// that starts after ` kd:` is exactly the derivative gain's text.
pub proof fn lemma_report_layout(
    kp: Seq<u8>,
    ki: Seq<u8>,
    kd: Seq<u8>,
    speed_a: Seq<u8>,
    speed_b: Seq<u8>,
    target_a: Seq<u8>,
    target_b: Seq<u8>,
)
    ensures
        report_spec(kp, ki, kd, speed_a, speed_b, target_a, target_b) == seq![0x6bu8, 0x70u8, 0x3au8] + kp + seq![0x20u8, 0x6bu8, 0x69u8, 0x3au8] + ki
            + seq![0x20u8, 0x6bu8, 0x64u8, 0x3au8] + kd + seq![0x20u8, 0x73u8, 0x61u8, 0x3au8]
            + speed_a + seq![0x20u8, 0x73u8, 0x62u8, 0x3au8] + speed_b
            + seq![0x20u8, 0x74u8, 0x61u8, 0x3au8] + target_a
            + seq![0x20u8, 0x74u8, 0x62u8, 0x3au8] + target_b + seq![0x0du8, 0x0au8],
        report_spec(kp, ki, kd, speed_a, speed_b, target_a, target_b).subrange(
            3 + kp.len() + 4 + ki.len() + 4 as int,
            3 + kp.len() + 4 + ki.len() + 4 + kd.len() as int,
        ) == kd,
        report_spec(kp, ki, kd, speed_a, speed_b, target_a, target_b).subrange(
            report_spec(kp, ki, kd, speed_a, speed_b, target_a, target_b).len() - 2 - target_b.len(),
            report_spec(kp, ki, kd, speed_a, speed_b, target_a, target_b).len() - 2,
        ) == target_b,
{
    let r = report_spec(kp, ki, kd, speed_a, speed_b, target_a, target_b);
    let head = seq![0x6bu8, 0x70u8, 0x3au8] + kp + seq![0x20u8, 0x6bu8, 0x69u8, 0x3au8] + ki
        + seq![0x20u8, 0x6bu8, 0x64u8, 0x3au8];
    let tail = seq![0x20u8, 0x73u8, 0x61u8, 0x3au8] + speed_a + seq![0x20u8, 0x73u8, 0x62u8, 0x3au8]
        + speed_b + seq![0x20u8, 0x74u8, 0x61u8, 0x3au8] + target_a + seq![0x20u8, 0x74u8, 0x62u8, 0x3au8];
    assert(r =~= head + kd + tail + target_b + seq![0x0du8, 0x0au8]);
    assert(head.len() == 3 + kp.len() + 4 + ki.len() + 4);
    assert(r.subrange(head.len() as int, head.len() + kd.len() as int) =~= kd);
    assert(r.subrange(r.len() - 2 - target_b.len(), r.len() - 2) =~= target_b);
}

} // verus!
