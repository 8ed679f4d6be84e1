//! Wireshark-style text for [`Ipv4Header`].

use vstd::prelude::*;

use crate::checksum::ChecksumStatus;
use crate::layer3::ipv4::anomalies::{HeaderField, Ipv4Anomaly};
use crate::layer3::ipv4::dscp_ecn::{dscp_name, ecn_keyword, spec_dscp_name, spec_ecn_keyword};
use crate::layer3::ipv4::packet::{Ipv4Address, Ipv4Header};
use crate::layer3::ipv4::protocol::spec_ip_protocol_value;
use crate::text::{dec_digits, prefixed_hex, push_char, push_dec, push_prefixed_hex, push_str};

verus! {

impl Ipv4Address {
    /// The address in dotted decimal.
    pub open spec fn spec_text(&self) -> Seq<char> {
        let o = self.0@;
        dec_digits(o[0] as nat) + seq!['.'] + dec_digits(o[1] as nat) + seq!['.'] + dec_digits(
            o[2] as nat,
        ) + seq!['.'] + dec_digits(o[3] as nat)
    }

    /// Appends the address in dotted decimal, such as `192.168.1.104`.
    pub fn write_text(&self, out: &mut String)
        ensures
            final(out)@ == old(out)@ + self.spec_text(),
    {
        push_dec(out, self.0[0] as u64);
        push_char(out, '.');
        push_dec(out, self.0[1] as u64);
        push_char(out, '.');
        push_dec(out, self.0[2] as u64);
        push_char(out, '.');
        push_dec(out, self.0[3] as u64);
        assert(out@ =~= old(out)@ + self.spec_text());
    }
}

/// One expert-information line per anomaly of `anomalies` that refers to
/// `target`, in order.
pub open spec fn field_anomaly_lines(anomalies: Seq<Ipv4Anomaly>, target: HeaderField) -> Seq<char>
    decreases anomalies.len(),
{
    if anomalies.len() == 0 {
        seq![]
    } else {
        field_anomaly_lines(anomalies.drop_last(), target) + if anomalies.last().spec_field()
            == target {
            "   [Expert Info: "@ + anomalies.last().spec_text() + "]\n"@
        } else {
            seq![]
        }
    }
}

/// The line that states the outcome of the header checksum.
pub open spec fn header_checksum_status_line(status: ChecksumStatus) -> Seq<char> {
    match status {
        ChecksumStatus::Bad => "[Header Checksum status: Bad]\n"@,
        ChecksumStatus::NotVerifiable => "[Header Checksum status: Unverified]\n"@,
        ChecksumStatus::Good => "[Header Checksum status: Good]\n"@,
    }
}

impl Ipv4Header {
    /// The Differentiated Services byte the DSCP and ECN fields pack into.
    pub open spec fn spec_ds_field(&self) -> u8 {
        (self.dscp << 2u8) | self.ecn
    }

    /// Version and header length, with the anomalies of the header length.
    pub open spec fn spec_text_version(&self) -> Seq<char> {
        "Version: "@ + dec_digits(self.version as nat) + "\n"@ + "Header Length: "@ + dec_digits(
            (self.ihl * 4) as nat,
        ) + " bytes ("@ + dec_digits(self.ihl as nat) + ")\n"@ + field_anomaly_lines(
            self.anomalies@,
            HeaderField::HeaderLength,
        )
    }

    /// DS field and total length, with the anomalies of the total length.
    pub open spec fn spec_text_ds_total(&self) -> Seq<char> {
        "Differentiated Services Field: "@ + prefixed_hex(self.spec_ds_field() as nat, 4) + " (DSCP: "@
            + spec_dscp_name(self.dscp) + ", ECN: "@ + spec_ecn_keyword(self.ecn) + ")\n"@
            + "Total Length: "@ + dec_digits(self.total_length as nat) + "\n"@ + field_anomaly_lines(
            self.anomalies@,
            HeaderField::TotalLength,
        )
    }

    /// Version, header length, DS field, total length, with their
    /// anomalies.
    pub open spec fn spec_text_lengths(&self) -> Seq<char> {
        self.spec_text_version() + self.spec_text_ds_total()
    }

    /// Identification, and flags with their anomalies.
    pub open spec fn spec_text_identification(&self) -> Seq<char> {
        "Identification: "@ + prefixed_hex(self.identification as nat, 6) + " ("@ + dec_digits(
            self.identification as nat,
        ) + ")\n"@ + "Flags: "@ + prefixed_hex(self.flags.spec_as_byte() as nat, 4) + ", "@
            + self.flags.spec_text() + "\n"@ + field_anomaly_lines(self.anomalies@, HeaderField::Flags)
    }

    /// Fragment offset, TTL, protocol.
    pub open spec fn spec_text_routing(&self) -> Seq<char> {
        "Fragment Offset: "@ + dec_digits(self.fragment_offset as nat) + "\n"@ + "Time to Live: "@
            + dec_digits(self.ttl as nat) + "\n"@ + "Protocol: "@ + self.protocol.spec_name() + " ("@
            + dec_digits(spec_ip_protocol_value(self.protocol) as nat) + ")\n"@
    }

    /// Identification, flags with their anomalies, fragment offset, TTL,
    /// protocol.
    pub open spec fn spec_text_fields(&self) -> Seq<char> {
        self.spec_text_identification() + self.spec_text_routing()
    }

    /// Checksum and addresses.
    pub open spec fn spec_text_checksum(&self) -> Seq<char> {
        "Header Checksum: "@ + prefixed_hex(self.header_checksum as nat, 6) + " ["@
            + self.checksum_status.spec_label() + "]\n"@ + header_checksum_status_line(
            self.checksum_status,
        ) + "Source Address: "@ + self.source_address.spec_text() + "\n"@ + "Destination Address: "@
            + self.destination_address.spec_text() + "\n"@
    }

    /// The header, one field a line, each field followed by its anomalies.
    pub open spec fn spec_text(&self) -> Seq<char> {
        self.spec_text_lengths() + self.spec_text_fields() + self.spec_text_checksum()
    }

    /// Appends one expert-information line per anomaly that refers to
    /// `target`.
    pub fn write_field_anomalies(&self, out: &mut String, target: HeaderField)
        ensures
            final(out)@ == old(out)@ + field_anomaly_lines(self.anomalies@, target),
    {
        let n = self.anomalies.len();
        let mut i: usize = 0;
        while i < n
            invariant
                n == self.anomalies@.len(),
                i <= n,
                out@ == old(out)@ + field_anomaly_lines(self.anomalies@.take(i as int), target),
            decreases n - i,
        {
            let ghost before = out@;
            assert(self.anomalies@.take(i + 1).drop_last() =~= self.anomalies@.take(i as int));
            let anomaly = &self.anomalies[i];
            if anomaly.field() == target {
                push_str(out, "   [Expert Info: ");
                anomaly.write_text(out);
                push_str(out, "]\n");
            }
            assert(out@ =~= old(out)@ + field_anomaly_lines(self.anomalies@.take(i + 1), target));
            i = i + 1;
        }
        assert(self.anomalies@.take(n as int) =~= self.anomalies@);
    }

    /// Appends the line that states the outcome of the header checksum.
    pub fn write_checksum_status(&self, out: &mut String)
        ensures
            final(out)@ == old(out)@ + header_checksum_status_line(self.checksum_status),
    {
        match self.checksum_status {
            ChecksumStatus::Bad => push_str(out, "[Header Checksum status: Bad]\n"),
            ChecksumStatus::NotVerifiable => push_str(out, "[Header Checksum status: Unverified]\n"),
            ChecksumStatus::Good => push_str(out, "[Header Checksum status: Good]\n"),
        }
    }

    fn write_text_version(&self, out: &mut String)
        ensures
            final(out)@ == old(out)@ + self.spec_text_version(),
    {
        push_str(out, "Version: ");
        push_dec(out, self.version as u64);
        push_str(out, "\n");
        push_str(out, "Header Length: ");
        push_dec(out, (self.ihl as u64) * 4);
        push_str(out, " bytes (");
        push_dec(out, self.ihl as u64);
        push_str(out, ")\n");
        self.write_field_anomalies(out, HeaderField::HeaderLength);
        assert(out@ =~= old(out)@ + self.spec_text_version());
    }

    fn write_text_ds_total(&self, out: &mut String)
        ensures
            final(out)@ == old(out)@ + self.spec_text_ds_total(),
    {
        let ds: u8 = (self.dscp << 2u8) | self.ecn;
        push_str(out, "Differentiated Services Field: ");
        push_prefixed_hex(out, ds as u64, 4);
        push_str(out, " (DSCP: ");
        push_str(out, dscp_name(self.dscp));
        push_str(out, ", ECN: ");
        push_str(out, ecn_keyword(self.ecn));
        push_str(out, ")\n");
        push_str(out, "Total Length: ");
        push_dec(out, self.total_length as u64);
        push_str(out, "\n");
        self.write_field_anomalies(out, HeaderField::TotalLength);
        assert(out@ =~= old(out)@ + self.spec_text_ds_total());
    }

    fn write_text_lengths(&self, out: &mut String)
        ensures
            final(out)@ == old(out)@ + self.spec_text_lengths(),
    {
        self.write_text_version(out);
        self.write_text_ds_total(out);
        assert(out@ =~= old(out)@ + self.spec_text_lengths());
    }

    fn write_text_identification(&self, out: &mut String)
        ensures
            final(out)@ == old(out)@ + self.spec_text_identification(),
    {
        push_str(out, "Identification: ");
        push_prefixed_hex(out, self.identification as u64, 6);
        push_str(out, " (");
        push_dec(out, self.identification as u64);
        push_str(out, ")\n");
        push_str(out, "Flags: ");
        push_prefixed_hex(out, self.flags.as_byte() as u64, 4);
        push_str(out, ", ");
        self.flags.write_text(out);
        push_str(out, "\n");
        self.write_field_anomalies(out, HeaderField::Flags);
        assert(out@ =~= old(out)@ + self.spec_text_identification());
    }

    fn write_text_routing(&self, out: &mut String)
        ensures
            final(out)@ == old(out)@ + self.spec_text_routing(),
    {
        push_str(out, "Fragment Offset: ");
        push_dec(out, self.fragment_offset as u64);
        push_str(out, "\n");
        push_str(out, "Time to Live: ");
        push_dec(out, self.ttl as u64);
        push_str(out, "\n");
        push_str(out, "Protocol: ");
        push_str(out, self.protocol.name());
        push_str(out, " (");
        push_dec(out, self.protocol.value() as u64);
        push_str(out, ")\n");
        assert(out@ =~= old(out)@ + self.spec_text_routing());
    }

    fn write_text_fields(&self, out: &mut String)
        ensures
            final(out)@ == old(out)@ + self.spec_text_fields(),
    {
        self.write_text_identification(out);
        self.write_text_routing(out);
        assert(out@ =~= old(out)@ + self.spec_text_fields());
    }

    fn write_text_checksum(&self, out: &mut String)
        ensures
            final(out)@ == old(out)@ + self.spec_text_checksum(),
    {
        push_str(out, "Header Checksum: ");
        push_prefixed_hex(out, self.header_checksum as u64, 6);
        push_str(out, " [");
        push_str(out, self.checksum_status.label());
        push_str(out, "]\n");
        self.write_checksum_status(out);
        push_str(out, "Source Address: ");
        self.source_address.write_text(out);
        push_str(out, "\n");
        push_str(out, "Destination Address: ");
        self.destination_address.write_text(out);
        push_str(out, "\n");
        assert(out@ =~= old(out)@ + self.spec_text_checksum());
    }

    /// Appends the header, one field a line, each field followed by the
    /// anomalies that refer to it.
    pub fn write_text(&self, out: &mut String)
        ensures
            final(out)@ == old(out)@ + self.spec_text(),
    {
        self.write_text_lengths(out);
        self.write_text_fields(out);
        self.write_text_checksum(out);
        assert(out@ =~= old(out)@ + self.spec_text());
    }

    /// The one-line summary of the header: source and destination.
    pub open spec fn spec_summary(&self) -> Seq<char> {
        "Internet Protocol Version 4, Src: "@ + self.source_address.spec_text() + ", Dst: "@
            + self.destination_address.spec_text()
    }

    /// The one-line summary of the header, such as
    /// `Internet Protocol Version 4, Src: 192.168.1.104, Dst: 8.8.8.8`.
    pub fn summary(&self) -> (t: String)
        ensures
            t@ == self.spec_summary(),
    {
        let mut t = String::new();
        push_str(&mut t, "Internet Protocol Version 4, Src: ");
        self.source_address.write_text(&mut t);
        push_str(&mut t, ", Dst: ");
        self.destination_address.write_text(&mut t);
        assert(t@ =~= self.spec_summary());
        t
    }

    /// The header, one field a line, each field followed by the anomalies
    /// that refer to it.
    pub fn to_text(&self) -> (t: String)
        ensures
            t@ == self.spec_text(),
    {
        let mut t = String::new();
        self.write_text(&mut t);
        assert(t@ =~= self.spec_text());
        t
    }
}

} // verus!
