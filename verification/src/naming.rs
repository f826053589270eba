//! Names of capture files: one file per datagram, named by who sent it and
//! when it was taken.

use vstd::prelude::*;
use vstd::string::*;
use crate::decimal::{append_decimal, decimal, lemma_decimal_injective, lemma_decimal_shape};

verus! {

/// Where a datagram came from: the text of the sender's IP address, as the
/// network stack prints it, and the sender's UDP port.
#[derive(Debug, PartialEq, Eq)]
pub struct Sender {
    pub ip: String,
    pub port: u16,
}

/// The mathematical value of a [`Sender`].
pub struct SenderView {
    pub ip: Seq<char>,
    pub port: u16,
}

impl View for Sender {
    type V = SenderView;

    open spec fn view(&self) -> SenderView {
        SenderView { ip: self.ip@, port: self.port }
    }
}

impl Clone for Sender {
    fn clone(&self) -> (copy: Sender)
        ensures
            copy@ == self@,
    {
        Sender { ip: self.ip.clone(), port: self.port }
    }
}

impl SenderView {
    /// The text `<ip>:<port>` by which status lines name the sender.
    pub open spec fn endpoint(self) -> Seq<char> {
        self.ip + ":"@ + decimal(self.port as nat)
    }

    /// The name of the file for a datagram of this sender taken `nanos`
    /// nanoseconds after the Unix epoch: `packet_<ip>_<port>_<nanos>.dump`.
    pub open spec fn file_name(self, nanos: u128) -> Seq<char> {
        "packet_"@ + self.ip + "_"@ + decimal(self.port as nat) + "_"@ + decimal(nanos as nat)
            + ".dump"@
    }
}

/// The path of the file `name` in the directory `output_dir`.
pub open spec fn file_path(output_dir: Seq<char>, name: Seq<char>) -> Seq<char> {
    output_dir + "/"@ + name
}

/// `s` does not hold the character `c`.
pub open spec fn free_of(s: Seq<char>, c: char) -> bool {
    forall|i: int| 0 <= i < s.len() ==> #[trigger] s[i] != c
}

/// Texts that agree after the same prefix was put before them are equal.
pub proof fn lemma_cancel_prefix(prefix: Seq<char>, a: Seq<char>, b: Seq<char>)
    requires
        prefix + a == prefix + b,
    ensures
        a == b,
{
    assert((prefix + a).len() == prefix.len() + a.len());
    assert((prefix + b).len() == prefix.len() + b.len());
    assert forall|i: int| 0 <= i < a.len() implies a[i] == b[i] by {
        assert((prefix + a)[prefix.len() + i] == a[i]);
        assert((prefix + b)[prefix.len() + i] == b[i]);
    }
    assert(a =~= b);
}

/// Texts that agree after the same suffix was put behind them are equal.
pub proof fn lemma_cancel_suffix(a: Seq<char>, b: Seq<char>, suffix: Seq<char>)
    requires
        a + suffix == b + suffix,
    ensures
        a == b,
{
    assert((a + suffix).len() == a.len() + suffix.len());
    assert((b + suffix).len() == b.len() + suffix.len());
    assert forall|i: int| 0 <= i < a.len() implies a[i] == b[i] by {
        assert((a + suffix)[i] == a[i]);
        assert((b + suffix)[i] == b[i]);
    }
    assert(a =~= b);
}

/// A text splits in one way only at its last separator: where `tail_a` and
/// `tail_b` hold no `sep`, equal joined texts have equal heads and tails.
pub proof fn lemma_split_at_last(
    head_a: Seq<char>,
    tail_a: Seq<char>,
    head_b: Seq<char>,
    tail_b: Seq<char>,
    sep: char,
)
    requires
        head_a.push(sep) + tail_a == head_b.push(sep) + tail_b,
        free_of(tail_a, sep),
        free_of(tail_b, sep),
    ensures
        head_a == head_b,
        tail_a == tail_b,
{
    let joined_a = head_a.push(sep) + tail_a;
    let joined_b = head_b.push(sep) + tail_b;
    assert(joined_a.len() == head_a.len() + 1 + tail_a.len());
    assert(joined_b.len() == head_b.len() + 1 + tail_b.len());
    assert(joined_a[head_a.len() as int] == sep);
    assert(joined_b[head_b.len() as int] == sep);
    if head_a.len() < head_b.len() {
        // The separator of `b` would lie inside `tail_a`.
        let k = head_b.len() - head_a.len() - 1;
        assert(joined_a[head_b.len() as int] == tail_a[k]);
        assert(false);
    }
    if head_b.len() < head_a.len() {
        let k = head_a.len() - head_b.len() - 1;
        assert(joined_b[head_a.len() as int] == tail_b[k]);
        assert(false);
    }
    assert forall|i: int| 0 <= i < head_a.len() implies head_a[i] == head_b[i] by {
        assert(joined_a[i] == head_a[i]);
        assert(joined_b[i] == head_b[i]);
    }
    assert(head_a =~= head_b);
    assert forall|i: int| 0 <= i < tail_a.len() implies tail_a[i] == tail_b[i] by {
        assert(joined_a[head_a.len() + 1 + i] == tail_a[i]);
        assert(joined_b[head_b.len() + 1 + i] == tail_b[i]);
    }
    assert(tail_a =~= tail_b);
}

/// A numeral holds no underscore.
proof fn lemma_decimal_free_of_underscore(n: nat)
    ensures
        free_of(decimal(n), '_'),
{
    lemma_decimal_shape(n);
}

/// A file name tells its sender and its instant: two captures with the same
/// file name have the same sender address, the same sender port and the same
/// instant.
pub proof fn lemma_file_name_injective(a: SenderView, m: u128, b: SenderView, n: u128)
    requires
        a.file_name(m) == b.file_name(n),
    ensures
        a == b,
        m == n,
{
    reveal_strlit("_");
    let sep = '_';
    assert("_"@ =~= seq![sep]);
    let port_a = decimal(a.port as nat);
    let port_b = decimal(b.port as nat);
    let nanos_a = decimal(m as nat);
    let nanos_b = decimal(n as nat);
    let head_a = "packet_"@ + a.ip;
    let head_b = "packet_"@ + b.ip;
    let front_a = head_a.push(sep) + port_a;
    let front_b = head_b.push(sep) + port_b;
    assert(a.file_name(m) =~= front_a.push(sep) + nanos_a + ".dump"@);
    assert(b.file_name(n) =~= front_b.push(sep) + nanos_b + ".dump"@);
    lemma_cancel_suffix(front_a.push(sep) + nanos_a, front_b.push(sep) + nanos_b, ".dump"@);
    lemma_decimal_free_of_underscore(m as nat);
    lemma_decimal_free_of_underscore(n as nat);
    lemma_split_at_last(front_a, nanos_a, front_b, nanos_b, sep);
    lemma_decimal_free_of_underscore(a.port as nat);
    lemma_decimal_free_of_underscore(b.port as nat);
    lemma_split_at_last(head_a, port_a, head_b, port_b, sep);
    lemma_cancel_prefix("packet_"@, a.ip, b.ip);
    lemma_decimal_injective(a.port as nat, b.port as nat);
    lemma_decimal_injective(m as nat, n as nat);
}

/// Within one directory, different file names are different paths.
pub proof fn lemma_file_path_injective(output_dir: Seq<char>, name_a: Seq<char>, name_b: Seq<char>)
    requires
        file_path(output_dir, name_a) == file_path(output_dir, name_b),
    ensures
        name_a == name_b,
{
    lemma_cancel_prefix(output_dir + "/"@, name_a, name_b);
}

/// No capture overwrites another as long as the clock tells them apart:
/// datagrams of one sender taken at different instants go to different
/// paths of the output directory.
pub proof fn lemma_distinct_instants_distinct_paths(
    output_dir: Seq<char>,
    sender: SenderView,
    m: u128,
    n: u128,
)
    requires
        m != n,
    ensures
        file_path(output_dir, sender.file_name(m)) != file_path(output_dir, sender.file_name(n)),
{
    if file_path(output_dir, sender.file_name(m)) == file_path(output_dir, sender.file_name(n)) {
        lemma_file_path_injective(output_dir, sender.file_name(m), sender.file_name(n));
        lemma_file_name_injective(sender, m, sender, n);
    }
}

impl Sender {
    /// The name of the file for a datagram of this sender taken `nanos`
    /// nanoseconds after the Unix epoch.
    pub fn file_name(&self, nanos: u128) -> (name: String)
        ensures
            name@ == self@.file_name(nanos),
    {
        let mut name = String::from_str("packet_");
        name.append(self.ip.as_str());
        name.append("_");
        append_decimal(&mut name, self.port as u128);
        name.append("_");
        append_decimal(&mut name, nanos);
        name.append(".dump");
        name
    }

    /// The text `<ip>:<port>` that names this sender in status lines.
    pub fn endpoint(&self) -> (text: String)
        ensures
            text@ == self@.endpoint(),
    {
        let mut text = self.ip.clone();
        text.append(":");
        append_decimal(&mut text, self.port as u128);
        text
    }
}

/// The path of the capture file `name` in the directory `output_dir`.
pub fn capture_path(output_dir: &str, name: &str) -> (path: String)
    ensures
        path@ == file_path(output_dir@, name@),
{
    let mut path = String::from_str(output_dir);
    path.append("/");
    path.append(name);
    path
}

} // verus!
