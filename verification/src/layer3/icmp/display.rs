//! Wireshark-style text for [`IcmpMessage`].

use vstd::prelude::*;

use crate::checksum::ChecksumStatus;
use crate::layer3::icmp::anomalies::IcmpAnomaly;
use crate::layer3::icmp::message::{IcmpBody, IcmpMessage};
use crate::layer3::icmp::types::spec_icmp_type_value;
use crate::text::{
    dec_u16, dec_u8, dump_lines, prefixed_hex_u16, push_dec_u16, push_dec_u8, push_dec_usize,
    push_dump, push_prefixed_hex_u16, push_str,
};

verus! {

/// The line that states the outcome of the message checksum.
pub open spec fn message_checksum_status_line(status: ChecksumStatus) -> Seq<char> {
    match status {
        ChecksumStatus::Bad => "[Checksum status: Bad]\n"@,
        ChecksumStatus::NotVerifiable => "[Checksum status: Unverified]\n"@,
        ChecksumStatus::Good => "[Checksum status: Good]\n"@,
    }
}

/// Raw bytes: their count, a blank line, then a hex dump.
pub open spec fn data_text(data: Seq<u8>) -> Seq<char> {
    "Data ("@ + crate::text::dec_digits(data.len()) + " bytes)\n\n"@ + dump_lines(data, 0, false)
}

/// One expert-information line per anomaly, in order.
pub open spec fn anomaly_lines(anomalies: Seq<IcmpAnomaly>) -> Seq<char>
    decreases anomalies.len(),
{
    if anomalies.len() == 0 {
        seq![]
    } else {
        anomaly_lines(anomalies.drop_last()) + "[Expert Info: "@ + anomalies.last().spec_text() + "]\n"@
    }
}

impl<'a> IcmpMessage<'a> {
    /// Type, code, checksum and the outcome of the checksum.
    pub open spec fn spec_text_header(&self) -> Seq<char> {
        "Internet Control Message Protocol\n"@ + "Type: "@ + self.type_.spec_name() + " ("@ + dec_u8(
            spec_icmp_type_value(self.type_),
        ) + ")\n"@ + "Code: "@ + dec_u8(self.code) + "\n"@ + "Checksum: "@ + prefixed_hex_u16(
            self.checksum_,
            6,
        ) + " ["@ + self.checksum_status.spec_label() + "]\n"@ + message_checksum_status_line(
            self.checksum_status,
        )
    }

    /// The body: identifier, sequence number and data of an echo message,
    /// nothing of a truncated one, the raw bytes of another type.
    pub open spec fn spec_text_body(&self) -> Seq<char> {
        match self.body {
            IcmpBody::Echo(Some(echo)) => "Identifier: "@ + dec_u16(echo.identifier) + " ("@
                + prefixed_hex_u16(echo.identifier, 6) + ")\n"@ + "Sequence Number: "@ + dec_u16(
                echo.sequence_number,
            ) + " ("@ + prefixed_hex_u16(echo.sequence_number, 6) + ")\n"@ + data_text(echo.data@),
            IcmpBody::Echo(None) => seq![],
            IcmpBody::Other(raw) => data_text(raw@),
        }
    }

    /// The message: header fields, body, then anomalies.
    pub open spec fn spec_text(&self) -> Seq<char> {
        self.spec_text_header() + self.spec_text_body() + anomaly_lines(self.anomalies@)
    }

    /// Appends one expert-information line per anomaly.
    pub fn write_anomalies(&self, out: &mut String)
        ensures
            final(out)@ == old(out)@ + anomaly_lines(self.anomalies@),
    {
        let n = self.anomalies.len();
        let mut i: usize = 0;
        while i < n
            invariant
                n == self.anomalies@.len(),
                i <= n,
                out@ == old(out)@ + anomaly_lines(self.anomalies@.take(i as int)),
            decreases n - i,
        {
            assert(self.anomalies@.take(i + 1).drop_last() =~= self.anomalies@.take(i as int));
            push_str(out, "[Expert Info: ");
            self.anomalies[i].write_text(out);
            push_str(out, "]\n");
            assert(out@ =~= old(out)@ + anomaly_lines(self.anomalies@.take(i + 1)));
            i = i + 1;
        }
        assert(self.anomalies@.take(n as int) =~= self.anomalies@);
    }

    /// Appends the line that states the outcome of the checksum.
    pub fn write_checksum_status(&self, out: &mut String)
        ensures
            final(out)@ == old(out)@ + message_checksum_status_line(self.checksum_status),
    {
        match self.checksum_status {
            ChecksumStatus::Bad => push_str(out, "[Checksum status: Bad]\n"),
            ChecksumStatus::NotVerifiable => push_str(out, "[Checksum status: Unverified]\n"),
            ChecksumStatus::Good => push_str(out, "[Checksum status: Good]\n"),
        }
    }

    /// Appends raw bytes: their count, a blank line, then a hex dump,
    /// sixteen bytes a line.
    pub fn write_data(out: &mut String, data: &[u8])
        ensures
            final(out)@ == old(out)@ + data_text(data@),
    {
        push_str(out, "Data (");
        push_dec_usize(out, data.len());
        push_str(out, " bytes)\n\n");
        push_dump(out, data, false);
        assert(out@ =~= old(out)@ + data_text(data@));
    }

    fn write_text_header(&self, out: &mut String)
        ensures
            final(out)@ == old(out)@ + self.spec_text_header(),
    {
        push_str(out, "Internet Control Message Protocol\n");
        push_str(out, "Type: ");
        push_str(out, self.type_.name());
        push_str(out, " (");
        push_dec_u8(out, self.type_.value());
        push_str(out, ")\n");
        push_str(out, "Code: ");
        push_dec_u8(out, self.code);
        push_str(out, "\n");
        push_str(out, "Checksum: ");
        push_prefixed_hex_u16(out, self.checksum_, 6);
        push_str(out, " [");
        push_str(out, self.checksum_status.label());
        push_str(out, "]\n");
        self.write_checksum_status(out);
        assert(out@ =~= old(out)@ + self.spec_text_header());
    }

    fn write_text_body(&self, out: &mut String)
        ensures
            final(out)@ == old(out)@ + self.spec_text_body(),
    {
        match self.body {
            IcmpBody::Echo(Some(echo)) => {
                push_str(out, "Identifier: ");
                push_dec_u16(out, echo.identifier);
                push_str(out, " (");
                push_prefixed_hex_u16(out, echo.identifier, 6);
                push_str(out, ")\n");
                push_str(out, "Sequence Number: ");
                push_dec_u16(out, echo.sequence_number);
                push_str(out, " (");
                push_prefixed_hex_u16(out, echo.sequence_number, 6);
                push_str(out, ")\n");
                Self::write_data(out, echo.data);
            },
            IcmpBody::Echo(None) => {},
            IcmpBody::Other(raw_body) => Self::write_data(out, raw_body),
        }
        assert(out@ =~= old(out)@ + self.spec_text_body());
    }

    /// Appends the message: type, code, checksum and its outcome, the body,
    /// then the anomalies.
    pub fn write_text(&self, out: &mut String)
        ensures
            final(out)@ == old(out)@ + self.spec_text(),
    {
        self.write_text_header(out);
        self.write_text_body(out);
        self.write_anomalies(out);
        assert(out@ =~= old(out)@ + self.spec_text());
    }

    /// The message: type, code, checksum and its outcome, the body, then
    /// the anomalies.
    pub fn to_text(&self) -> (t: String)
        ensures
            t@ == self.spec_text(),
    {
        let mut t = String::new();
        self.write_text(&mut t);
        assert(t@ =~= self.spec_text());
        t
    }
}

} // verus!
