//! Pattern rules over raw bytes: each rule lists byte patterns and
//! case-insensitive text patterns, and fires when one of them (or, for some
//! rules, all of them) occur in the file.

use vstd::prelude::*;
use crate::text::{
    ascii_lower_seq, bytes_to_ascii_lower, chars_of, contains_bytes, seq_contains, string_of,
    to_lowercase, unicode_lower,
};
use crate::types::{Severity, YaraMatch};

verus! {

/// What a rule looks for.
pub enum Pattern {
    /// These exact bytes.
    Bytes(&'static [u8]),
    /// This text, compared after lower-casing both sides.
    StringInsensitive(&'static str),
}

/// A named rule with its patterns.
pub struct Rule {
    pub name: &'static str,
    pub description: &'static str,
    pub severity: Severity,
    pub patterns: Vec<Pattern>,
    /// The rule fires only when every pattern occurs.
    pub require_all: bool,
}

/// A pattern as a value: its bytes, or its text.
pub enum PatternView {
    Bytes(Seq<u8>),
    Insensitive(Seq<char>),
}

/// A rule as a value.
#[verifier::ext_equal]
pub struct RuleView {
    pub name: Seq<char>,
    pub description: Seq<char>,
    pub severity: Severity,
    pub patterns: Seq<PatternView>,
    pub require_all: bool,
}

/// The value of a pattern.
pub open spec fn pattern_view(p: Pattern) -> PatternView {
    match p {
        Pattern::Bytes(b) => PatternView::Bytes(b@),
        Pattern::StringInsensitive(s) => PatternView::Insensitive(s@),
    }
}

/// The value of a rule.
pub open spec fn rule_view(r: Rule) -> RuleView {
    RuleView {
        name: r.name@,
        description: r.description@,
        severity: r.severity,
        patterns: r.patterns@.map_values(|p: Pattern| pattern_view(p)),
        require_all: r.require_all,
    }
}

/// A printable ASCII byte (`is_ascii_graphic`) or a space.
pub open spec fn printable_byte(b: u8) -> bool {
    0x21 <= b <= 0x7e || b == 0x20
}

/// The character of a hexadecimal digit, upper case.
pub open spec fn hex_upper_digit(d: nat) -> char {
    if d < 10 { ((d + 48) as u8) as char } else { ((d + 55) as u8) as char }
}

/// Two upper-case hexadecimal digits of a byte.
pub open spec fn hex_pair(b: u8) -> Seq<char> {
    seq![hex_upper_digit((b / 16) as nat), hex_upper_digit((b % 16) as nat)]
}

/// The bytes as upper-case hexadecimal pairs separated by single spaces.
pub open spec fn hex_join(bs: Seq<u8>) -> Seq<char>
    decreases bs.len(),
{
    if bs.len() == 0 {
        seq![]
    } else if bs.len() == 1 {
        hex_pair(bs[0])
    } else {
        hex_join(bs.drop_last()) + seq![' '] + hex_pair(bs.last())
    }
}

/// Text between double quotes.
pub open spec fn quoted(s: Seq<char>) -> Seq<char> {
    seq!['"'] + s + seq!['"']
}

/// How a matched pattern is reported: printable bytes and text patterns
/// quoted, other bytes as `hex: ` and the hexadecimal pairs.
pub open spec fn pattern_report(p: PatternView) -> Seq<char> {
    match p {
        PatternView::Bytes(b) => if forall|i: int| 0 <= i < b.len() ==> printable_byte(#[trigger] b[i]) {
            quoted(b.map_values(|x: u8| x as char))
        } else {
            "hex: "@ + hex_join(b)
        },
        PatternView::Insensitive(s) => quoted(s),
    }
}

/// The pattern occurs in `data`: bytes as they are, text after lower-casing
/// (ASCII lower-casing of the data, Unicode lower-casing of the pattern).
pub open spec fn pattern_occurs(data: Seq<u8>, p: PatternView) -> bool {
    match p {
        PatternView::Bytes(b) => seq_contains(data, b),
        PatternView::Insensitive(s) => seq_contains(ascii_lower_seq(data), vstd::utf8::encode_utf8(unicode_lower(s))),
    }
}

/// Reports of the patterns that occur in `data`, in the order of the rule.
pub open spec fn pattern_reports(data: Seq<u8>, ps: Seq<PatternView>) -> Seq<Seq<char>>
    decreases ps.len(),
{
    if ps.len() == 0 {
        seq![]
    } else {
        let prev = pattern_reports(data, ps.drop_last());
        if pattern_occurs(data, ps.last()) { prev.push(pattern_report(ps.last())) } else { prev }
    }
}

/// The rule fires on `data`.
pub open spec fn rule_fires(data: Seq<u8>, r: RuleView) -> bool {
    let n = pattern_reports(data, r.patterns).len();
    if r.require_all { n == r.patterns.len() } else { n > 0 }
}

/// A reported rule match as a value: name, description, severity, matched
/// pattern reports.
pub open spec fn match_view(m: YaraMatch) -> (Seq<char>, Seq<char>, Severity, Seq<Seq<char>>) {
    (m.rule_name@, m.description@, m.severity, m.matched_strings@.map_values(|s: String| s@))
}

/// The matches of the rules on `data`, in the order of the rules.
pub open spec fn scan_matches(data: Seq<u8>, rules: Seq<RuleView>) -> Seq<(Seq<char>, Seq<char>, Severity, Seq<Seq<char>>)>
    decreases rules.len(),
{
    if rules.len() == 0 {
        seq![]
    } else {
        let prev = scan_matches(data, rules.drop_last());
        let r = rules.last();
        if rule_fires(data, r) {
            prev.push((r.name, r.description, r.severity, pattern_reports(data, r.patterns)))
        } else {
            prev
        }
    }
}

/// Sixty-four NOP instructions (0x90) in a row.
fn nop_sled() -> (r: &'static [u8])
    ensures
        r@ == Seq::new(64, |i: int| 0x90u8),
{
    let r: &'static [u8] = &[0x90u8; 64];
    proof {
        assert(r@ =~= Seq::new(64, |i: int| 0x90u8));
    }
    r
}

/// The built-in rule set: thirty-eight rules, in this order.
pub open spec fn default_rules() -> Seq<RuleView> {
    seq![
        RuleView {
            name: "UPX_Packer"@,
            description: "Packer UPX détecté (compression PE)"@,
            severity: Severity::Medium,
            patterns: seq![PatternView::Bytes(vstd::utf8::encode_utf8("UPX0"@)), PatternView::Bytes(vstd::utf8::encode_utf8("UPX!"@))],
            require_all: false,
        },
        RuleView {
            name: "MPRESS_Packer"@,
            description: "Packer MPRESS détecté"@,
            severity: Severity::Medium,
            patterns: seq![PatternView::Bytes(vstd::utf8::encode_utf8("MPRESS1"@))],
            require_all: false,
        },
        RuleView {
            name: "VMProtect_Packer"@,
            description: "Protection VMProtect (virtualisation de code)"@,
            severity: Severity::Medium,
            patterns: seq![PatternView::Bytes(vstd::utf8::encode_utf8(".vmp0"@)), PatternView::Bytes(vstd::utf8::encode_utf8(".vmp1"@))],
            require_all: false,
        },
        RuleView {
            name: "ASPack_Packer"@,
            description: "Packer ASPack détecté"@,
            severity: Severity::Medium,
            patterns: seq![PatternView::Bytes(vstd::utf8::encode_utf8(".aspack"@)), PatternView::Bytes(vstd::utf8::encode_utf8(".adata"@))],
            require_all: true,
        },
        RuleView {
            name: "Ransomware_Strings"@,
            description: "Chaînes caractéristiques de ransomware (message victime)"@,
            severity: Severity::Critical,
            patterns: seq![PatternView::Insensitive("your files have been encrypted"@), PatternView::Insensitive("decrypt your files"@)],
            require_all: true,
        },
        RuleView {
            name: "Ransomware_Payment"@,
            description: "Instructions paiement ransom (BTC + Tor)"@,
            severity: Severity::Critical,
            patterns: seq![PatternView::Insensitive("bitcoin"@), PatternView::Insensitive("tor browser"@)],
            require_all: true,
        },
        RuleView {
            name: "Ransomware_ShadowCopy"@,
            description: "Suppression des shadow copies (prélude au chiffrement)"@,
            severity: Severity::Critical,
            patterns: seq![PatternView::Insensitive("vssadmin delete shadows"@), PatternView::Insensitive("wmic shadowcopy delete"@)],
            require_all: false,
        },
        RuleView {
            name: "Ransomware_Note_Names"@,
            description: "Noms de fichiers de note de rançon connus"@,
            severity: Severity::Critical,
            patterns: seq![PatternView::Insensitive("README_FOR_DECRYPT"@), PatternView::Insensitive("HOW_TO_DECRYPT"@), PatternView::Insensitive("DECRYPT_INSTRUCTIONS"@), PatternView::Insensitive("RESTORE_FILES"@)],
            require_all: false,
        },
        RuleView {
            name: "Process_Injection"@,
            description: "Signatures d'injection de processus (CreateRemoteThread)"@,
            severity: Severity::Critical,
            patterns: seq![PatternView::Insensitive("createremotethread"@), PatternView::Insensitive("virtualallocex"@)],
            require_all: true,
        },
        RuleView {
            name: "Process_Hollowing"@,
            description: "Process hollowing (NtUnmapViewOfSection + Resume)"@,
            severity: Severity::Critical,
            patterns: seq![PatternView::Insensitive("ntunmapviewofsection"@), PatternView::Insensitive("resumethread"@)],
            require_all: true,
        },
        RuleView {
            name: "Shellcode_Patterns"@,
            description: "NOP sled extrême (64+ bytes) — shellcode probable"@,
            severity: Severity::High,
            patterns: seq![PatternView::Bytes(Seq::new(64, |i: int| 0x90u8))],
            require_all: true,
        },
        RuleView {
            name: "Reflective_DLL"@,
            description: "Chargement réflexif de DLL en mémoire"@,
            severity: Severity::Critical,
            patterns: seq![PatternView::Insensitive("ReflectiveLoader"@), PatternView::Insensitive("reflective_dll"@)],
            require_all: false,
        },
        RuleView {
            name: "Keylogger_Strings"@,
            description: "APIs capture clavier (GetAsyncKeyState + GetKeyboardState)"@,
            severity: Severity::Medium,
            patterns: seq![PatternView::Insensitive("getasynckeystate"@), PatternView::Insensitive("getkeyboardstate"@)],
            require_all: true,
        },
        RuleView {
            name: "Browser_Password_Theft"@,
            description: "Accès aux mots de passe stockés des navigateurs"@,
            severity: Severity::Critical,
            patterns: seq![PatternView::Insensitive("Login Data"@), PatternView::Insensitive("encrypted_key"@), PatternView::Insensitive("CryptUnprotectData"@)],
            require_all: true,
        },
        RuleView {
            name: "Discord_Token_Stealer"@,
            description: "Vol de tokens Discord"@,
            severity: Severity::Critical,
            patterns: seq![PatternView::Insensitive("discord"@), PatternView::Insensitive("leveldb"@), PatternView::Insensitive("dQw4w9WgXcQ"@)],
            require_all: false,
        },
        RuleView {
            name: "Crypto_Wallet_Theft"@,
            description: "Ciblage de wallets crypto (Exodus, Electrum, MetaMask)"@,
            severity: Severity::Critical,
            patterns: seq![PatternView::Insensitive("wallet.dat"@), PatternView::Insensitive("electrum"@), PatternView::Insensitive("exodus"@), PatternView::Insensitive("metamask"@)],
            require_all: false,
        },
        RuleView {
            name: "Telegram_Session_Theft"@,
            description: "Vol de session Telegram (tdata)"@,
            severity: Severity::High,
            patterns: seq![PatternView::Insensitive("tdata"@), PatternView::Insensitive("telegram desktop"@)],
            require_all: true,
        },
        RuleView {
            name: "Mimikatz_Strings"@,
            description: "Signatures de l'outil de vol de credentials Mimikatz"@,
            severity: Severity::Critical,
            patterns: seq![PatternView::Bytes(vstd::utf8::encode_utf8("mimikatz"@)), PatternView::Bytes(vstd::utf8::encode_utf8("sekurlsa"@)), PatternView::Insensitive("lsadump"@)],
            require_all: false,
        },
        RuleView {
            name: "CobaltStrike_Beacon"@,
            description: "Signatures Cobalt Strike Beacon"@,
            severity: Severity::Critical,
            patterns: seq![PatternView::Insensitive("beacon.dll"@), PatternView::Insensitive("%%IMPORT%%"@), PatternView::Insensitive("ReflectiveLoader@4"@)],
            require_all: false,
        },
        RuleView {
            name: "Metasploit_Payload"@,
            description: "Payload Metasploit/Meterpreter"@,
            severity: Severity::Critical,
            patterns: seq![PatternView::Insensitive("meterpreter"@), PatternView::Insensitive("metsrv.dll"@), PatternView::Insensitive("ext_server_stdapi"@)],
            require_all: false,
        },
        RuleView {
            name: "Common_RAT_Strings"@,
            description: "Signatures de RATs courants (njRAT, AsyncRAT, QuasarRAT)"@,
            severity: Severity::Critical,
            patterns: seq![PatternView::Insensitive("njrat"@), PatternView::Insensitive("asyncrat"@), PatternView::Insensitive("quasar.client"@), PatternView::Insensitive("dcrat"@), PatternView::Insensitive("remcos"@), PatternView::Insensitive("nanocore"@)],
            require_all: false,
        },
        RuleView {
            name: "CryptoMiner_Strings"@,
            description: "Mineur de cryptomonnaie embarqué"@,
            severity: Severity::High,
            patterns: seq![PatternView::Insensitive("stratum+tcp://"@), PatternView::Insensitive("xmrig"@), PatternView::Insensitive("minerd"@), PatternView::Insensitive("cryptonight"@), PatternView::Insensitive("--donate-level"@)],
            require_all: false,
        },
        RuleView {
            name: "PHP_Webshell"@,
            description: "Webshell PHP (eval + entrée utilisateur)"@,
            severity: Severity::Critical,
            patterns: seq![PatternView::Insensitive("eval($_post"@), PatternView::Insensitive("eval($_get"@), PatternView::Insensitive("eval(base64_decode"@)],
            require_all: false,
        },
        RuleView {
            name: "ASP_Webshell"@,
            description: "Webshell ASP/ASPX"@,
            severity: Severity::Critical,
            patterns: seq![PatternView::Insensitive("eval(request"@), PatternView::Insensitive("execute(request"@)],
            require_all: false,
        },
        RuleView {
            name: "JSP_Webshell"@,
            description: "Webshell JSP (Runtime.exec sur paramètre requête)"@,
            severity: Severity::Critical,
            patterns: seq![PatternView::Insensitive("runtime.getruntime().exec(request"@)],
            require_all: false,
        },
        RuleView {
            name: "Bash_Reverse_Shell"@,
            description: "Reverse shell bash (/dev/tcp)"@,
            severity: Severity::Critical,
            patterns: seq![PatternView::Insensitive("/dev/tcp/"@), PatternView::Insensitive("bash -i"@)],
            require_all: true,
        },
        RuleView {
            name: "Netcat_Exec_Shell"@,
            description: "Netcat avec exécution de shell"@,
            severity: Severity::Critical,
            patterns: seq![PatternView::Insensitive("nc -e /bin/sh"@), PatternView::Insensitive("nc -e /bin/bash"@), PatternView::Insensitive("nc.exe -e"@)],
            require_all: false,
        },
        RuleView {
            name: "AntiDebug_Techniques"@,
            description: "Anti-debug actif : IsDebuggerPresent + CheckRemoteDebugger"@,
            severity: Severity::High,
            patterns: seq![PatternView::Insensitive("isdebuggerpresent"@), PatternView::Insensitive("checkremotedebuggerpresent"@)],
            require_all: true,
        },
        RuleView {
            name: "AntiVM_Techniques"@,
            description: "Détection de machine virtuelle (évasion sandbox)"@,
            severity: Severity::High,
            patterns: seq![PatternView::Insensitive("vboxservice"@), PatternView::Insensitive("vmtoolsd"@), PatternView::Insensitive("sbiedll"@), PatternView::Insensitive("vmware_check"@)],
            require_all: false,
        },
        RuleView {
            name: "AMSI_Bypass"@,
            description: "Bypass AMSI (antimalware scan interface)"@,
            severity: Severity::Critical,
            patterns: seq![PatternView::Insensitive("amsiutils"@), PatternView::Insensitive("amsiinitfailed"@), PatternView::Insensitive("amsiscanbuffer"@)],
            require_all: false,
        },
        RuleView {
            name: "Defender_Tampering"@,
            description: "Désactivation de Windows Defender"@,
            severity: Severity::Critical,
            patterns: seq![PatternView::Insensitive("set-mppreference -disablerealtimemonitoring"@)],
            require_all: false,
        },
        RuleView {
            name: "PowerShell_Encoded_Cmd"@,
            description: "Commande PowerShell encodée (-EncodedCommand)"@,
            severity: Severity::Medium,
            patterns: seq![PatternView::Insensitive("powershell"@), PatternView::Insensitive("-encodedcommand"@)],
            require_all: true,
        },
        RuleView {
            name: "Suspicious_Certutil"@,
            description: "Utilisation de certutil pour decode/téléchargement"@,
            severity: Severity::High,
            patterns: seq![PatternView::Insensitive("certutil"@), PatternView::Insensitive("-decode"@)],
            require_all: true,
        },
        RuleView {
            name: "Base64_PE_Header"@,
            description: "Exécutable PE encodé en Base64 (TVqQ = MZ)"@,
            severity: Severity::High,
            patterns: seq![PatternView::Insensitive("TVqQAAMAAAAEAAAA"@)],
            require_all: false,
        },
        RuleView {
            name: "Persistence_Registry"@,
            description: "Accès clés de démarrage du registre"@,
            severity: Severity::Medium,
            patterns: seq![PatternView::Insensitive("software\\microsoft\\windows\\currentversion\\run"@), PatternView::Insensitive("software\\microsoft\\windows nt\\currentversion\\winlogon"@)],
            require_all: false,
        },
        RuleView {
            name: "Persistence_ScheduledTask"@,
            description: "Création de tâche planifiée (persistance)"@,
            severity: Severity::High,
            patterns: seq![PatternView::Insensitive("schtasks /create"@), PatternView::Insensitive("register-scheduledtask"@)],
            require_all: false,
        },
        RuleView {
            name: "Linux_Persistence"@,
            description: "Persistance Linux (crontab / rc.local / systemd)"@,
            severity: Severity::High,
            patterns: seq![PatternView::Insensitive("crontab -"@), PatternView::Insensitive("/etc/rc.local"@), PatternView::Insensitive("systemctl enable"@), PatternView::Insensitive("/etc/systemd/system/"@)],
            require_all: false,
        },
        RuleView {
            name: "Linux_History_Wipe"@,
            description: "Effacement de traces Linux (history, logs)"@,
            severity: Severity::High,
            patterns: seq![PatternView::Insensitive("history -c"@), PatternView::Insensitive("rm -rf /var/log"@), PatternView::Insensitive("shred -u"@)],
            require_all: false,
        },
    ]
}

/// The built-in rule set of thirty-eight rules: packers, ransomware,
/// injection, credential and wallet theft, remote-access tools, miners, web
/// shells, reverse shells, evasion and persistence.
pub fn build_rules() -> (rules: Vec<Rule>)
    ensures
        rules@.map_values(|r: Rule| rule_view(r)) == default_rules(),
        rules@.len() == 38,
{
    let rules = vec![
        Rule {
            name: "UPX_Packer",
            description: "Packer UPX détecté (compression PE)",
            severity: Severity::Medium,
            patterns: vec![Pattern::Bytes("UPX0".as_bytes()), Pattern::Bytes("UPX!".as_bytes())],
            require_all: false,
        },
        Rule {
            name: "MPRESS_Packer",
            description: "Packer MPRESS détecté",
            severity: Severity::Medium,
            patterns: vec![Pattern::Bytes("MPRESS1".as_bytes())],
            require_all: false,
        },
        Rule {
            name: "VMProtect_Packer",
            description: "Protection VMProtect (virtualisation de code)",
            severity: Severity::Medium,
            patterns: vec![Pattern::Bytes(".vmp0".as_bytes()), Pattern::Bytes(".vmp1".as_bytes())],
            require_all: false,
        },
        Rule {
            name: "ASPack_Packer",
            description: "Packer ASPack détecté",
            severity: Severity::Medium,
            patterns: vec![Pattern::Bytes(".aspack".as_bytes()), Pattern::Bytes(".adata".as_bytes())],
            require_all: true,
        },
        Rule {
            name: "Ransomware_Strings",
            description: "Chaînes caractéristiques de ransomware (message victime)",
            severity: Severity::Critical,
            patterns: vec![Pattern::StringInsensitive("your files have been encrypted"), Pattern::StringInsensitive("decrypt your files")],
            require_all: true,
        },
        Rule {
            name: "Ransomware_Payment",
            description: "Instructions paiement ransom (BTC + Tor)",
            severity: Severity::Critical,
            patterns: vec![Pattern::StringInsensitive("bitcoin"), Pattern::StringInsensitive("tor browser")],
            require_all: true,
        },
        Rule {
            name: "Ransomware_ShadowCopy",
            description: "Suppression des shadow copies (prélude au chiffrement)",
            severity: Severity::Critical,
            patterns: vec![Pattern::StringInsensitive("vssadmin delete shadows"), Pattern::StringInsensitive("wmic shadowcopy delete")],
            require_all: false,
        },
        Rule {
            name: "Ransomware_Note_Names",
            description: "Noms de fichiers de note de rançon connus",
            severity: Severity::Critical,
            patterns: vec![Pattern::StringInsensitive("README_FOR_DECRYPT"), Pattern::StringInsensitive("HOW_TO_DECRYPT"), Pattern::StringInsensitive("DECRYPT_INSTRUCTIONS"), Pattern::StringInsensitive("RESTORE_FILES")],
            require_all: false,
        },
        Rule {
            name: "Process_Injection",
            description: "Signatures d'injection de processus (CreateRemoteThread)",
            severity: Severity::Critical,
            patterns: vec![Pattern::StringInsensitive("createremotethread"), Pattern::StringInsensitive("virtualallocex")],
            require_all: true,
        },
        Rule {
            name: "Process_Hollowing",
            description: "Process hollowing (NtUnmapViewOfSection + Resume)",
            severity: Severity::Critical,
            patterns: vec![Pattern::StringInsensitive("ntunmapviewofsection"), Pattern::StringInsensitive("resumethread")],
            require_all: true,
        },
        Rule {
            name: "Shellcode_Patterns",
            description: "NOP sled extrême (64+ bytes) — shellcode probable",
            severity: Severity::High,
            patterns: vec![Pattern::Bytes(nop_sled())],
            require_all: true,
        },
        Rule {
            name: "Reflective_DLL",
            description: "Chargement réflexif de DLL en mémoire",
            severity: Severity::Critical,
            patterns: vec![Pattern::StringInsensitive("ReflectiveLoader"), Pattern::StringInsensitive("reflective_dll")],
            require_all: false,
        },
        Rule {
            name: "Keylogger_Strings",
            description: "APIs capture clavier (GetAsyncKeyState + GetKeyboardState)",
            severity: Severity::Medium,
            patterns: vec![Pattern::StringInsensitive("getasynckeystate"), Pattern::StringInsensitive("getkeyboardstate")],
            require_all: true,
        },
        Rule {
            name: "Browser_Password_Theft",
            description: "Accès aux mots de passe stockés des navigateurs",
            severity: Severity::Critical,
            patterns: vec![Pattern::StringInsensitive("Login Data"), Pattern::StringInsensitive("encrypted_key"), Pattern::StringInsensitive("CryptUnprotectData")],
            require_all: true,
        },
        Rule {
            name: "Discord_Token_Stealer",
            description: "Vol de tokens Discord",
            severity: Severity::Critical,
            patterns: vec![Pattern::StringInsensitive("discord"), Pattern::StringInsensitive("leveldb"), Pattern::StringInsensitive("dQw4w9WgXcQ")],
            require_all: false,
        },
        Rule {
            name: "Crypto_Wallet_Theft",
            description: "Ciblage de wallets crypto (Exodus, Electrum, MetaMask)",
            severity: Severity::Critical,
            patterns: vec![Pattern::StringInsensitive("wallet.dat"), Pattern::StringInsensitive("electrum"), Pattern::StringInsensitive("exodus"), Pattern::StringInsensitive("metamask")],
            require_all: false,
        },
        Rule {
            name: "Telegram_Session_Theft",
            description: "Vol de session Telegram (tdata)",
            severity: Severity::High,
            patterns: vec![Pattern::StringInsensitive("tdata"), Pattern::StringInsensitive("telegram desktop")],
            require_all: true,
        },
        Rule {
            name: "Mimikatz_Strings",
            description: "Signatures de l'outil de vol de credentials Mimikatz",
            severity: Severity::Critical,
            patterns: vec![Pattern::Bytes("mimikatz".as_bytes()), Pattern::Bytes("sekurlsa".as_bytes()), Pattern::StringInsensitive("lsadump")],
            require_all: false,
        },
        Rule {
            name: "CobaltStrike_Beacon",
            description: "Signatures Cobalt Strike Beacon",
            severity: Severity::Critical,
            patterns: vec![Pattern::StringInsensitive("beacon.dll"), Pattern::StringInsensitive("%%IMPORT%%"), Pattern::StringInsensitive("ReflectiveLoader@4")],
            require_all: false,
        },
        Rule {
            name: "Metasploit_Payload",
            description: "Payload Metasploit/Meterpreter",
            severity: Severity::Critical,
            patterns: vec![Pattern::StringInsensitive("meterpreter"), Pattern::StringInsensitive("metsrv.dll"), Pattern::StringInsensitive("ext_server_stdapi")],
            require_all: false,
        },
        Rule {
            name: "Common_RAT_Strings",
            description: "Signatures de RATs courants (njRAT, AsyncRAT, QuasarRAT)",
            severity: Severity::Critical,
            patterns: vec![Pattern::StringInsensitive("njrat"), Pattern::StringInsensitive("asyncrat"), Pattern::StringInsensitive("quasar.client"), Pattern::StringInsensitive("dcrat"), Pattern::StringInsensitive("remcos"), Pattern::StringInsensitive("nanocore")],
            require_all: false,
        },
        Rule {
            name: "CryptoMiner_Strings",
            description: "Mineur de cryptomonnaie embarqué",
            severity: Severity::High,
            patterns: vec![Pattern::StringInsensitive("stratum+tcp://"), Pattern::StringInsensitive("xmrig"), Pattern::StringInsensitive("minerd"), Pattern::StringInsensitive("cryptonight"), Pattern::StringInsensitive("--donate-level")],
            require_all: false,
        },
        Rule {
            name: "PHP_Webshell",
            description: "Webshell PHP (eval + entrée utilisateur)",
            severity: Severity::Critical,
            patterns: vec![Pattern::StringInsensitive("eval($_post"), Pattern::StringInsensitive("eval($_get"), Pattern::StringInsensitive("eval(base64_decode")],
            require_all: false,
        },
        Rule {
            name: "ASP_Webshell",
            description: "Webshell ASP/ASPX",
            severity: Severity::Critical,
            patterns: vec![Pattern::StringInsensitive("eval(request"), Pattern::StringInsensitive("execute(request")],
            require_all: false,
        },
        Rule {
            name: "JSP_Webshell",
            description: "Webshell JSP (Runtime.exec sur paramètre requête)",
            severity: Severity::Critical,
            patterns: vec![Pattern::StringInsensitive("runtime.getruntime().exec(request")],
            require_all: false,
        },
        Rule {
            name: "Bash_Reverse_Shell",
            description: "Reverse shell bash (/dev/tcp)",
            severity: Severity::Critical,
            patterns: vec![Pattern::StringInsensitive("/dev/tcp/"), Pattern::StringInsensitive("bash -i")],
            require_all: true,
        },
        Rule {
            name: "Netcat_Exec_Shell",
            description: "Netcat avec exécution de shell",
            severity: Severity::Critical,
            patterns: vec![Pattern::StringInsensitive("nc -e /bin/sh"), Pattern::StringInsensitive("nc -e /bin/bash"), Pattern::StringInsensitive("nc.exe -e")],
            require_all: false,
        },
        Rule {
            name: "AntiDebug_Techniques",
            description: "Anti-debug actif : IsDebuggerPresent + CheckRemoteDebugger",
            severity: Severity::High,
            patterns: vec![Pattern::StringInsensitive("isdebuggerpresent"), Pattern::StringInsensitive("checkremotedebuggerpresent")],
            require_all: true,
        },
        Rule {
            name: "AntiVM_Techniques",
            description: "Détection de machine virtuelle (évasion sandbox)",
            severity: Severity::High,
            patterns: vec![Pattern::StringInsensitive("vboxservice"), Pattern::StringInsensitive("vmtoolsd"), Pattern::StringInsensitive("sbiedll"), Pattern::StringInsensitive("vmware_check")],
            require_all: false,
        },
        Rule {
            name: "AMSI_Bypass",
            description: "Bypass AMSI (antimalware scan interface)",
            severity: Severity::Critical,
            patterns: vec![Pattern::StringInsensitive("amsiutils"), Pattern::StringInsensitive("amsiinitfailed"), Pattern::StringInsensitive("amsiscanbuffer")],
            require_all: false,
        },
        Rule {
            name: "Defender_Tampering",
            description: "Désactivation de Windows Defender",
            severity: Severity::Critical,
            patterns: vec![Pattern::StringInsensitive("set-mppreference -disablerealtimemonitoring")],
            require_all: false,
        },
        Rule {
            name: "PowerShell_Encoded_Cmd",
            description: "Commande PowerShell encodée (-EncodedCommand)",
            severity: Severity::Medium,
            patterns: vec![Pattern::StringInsensitive("powershell"), Pattern::StringInsensitive("-encodedcommand")],
            require_all: true,
        },
        Rule {
            name: "Suspicious_Certutil",
            description: "Utilisation de certutil pour decode/téléchargement",
            severity: Severity::High,
            patterns: vec![Pattern::StringInsensitive("certutil"), Pattern::StringInsensitive("-decode")],
            require_all: true,
        },
        Rule {
            name: "Base64_PE_Header",
            description: "Exécutable PE encodé en Base64 (TVqQ = MZ)",
            severity: Severity::High,
            patterns: vec![Pattern::StringInsensitive("TVqQAAMAAAAEAAAA")],
            require_all: false,
        },
        Rule {
            name: "Persistence_Registry",
            description: "Accès clés de démarrage du registre",
            severity: Severity::Medium,
            patterns: vec![Pattern::StringInsensitive("software\\microsoft\\windows\\currentversion\\run"), Pattern::StringInsensitive("software\\microsoft\\windows nt\\currentversion\\winlogon")],
            require_all: false,
        },
        Rule {
            name: "Persistence_ScheduledTask",
            description: "Création de tâche planifiée (persistance)",
            severity: Severity::High,
            patterns: vec![Pattern::StringInsensitive("schtasks /create"), Pattern::StringInsensitive("register-scheduledtask")],
            require_all: false,
        },
        Rule {
            name: "Linux_Persistence",
            description: "Persistance Linux (crontab / rc.local / systemd)",
            severity: Severity::High,
            patterns: vec![Pattern::StringInsensitive("crontab -"), Pattern::StringInsensitive("/etc/rc.local"), Pattern::StringInsensitive("systemctl enable"), Pattern::StringInsensitive("/etc/systemd/system/")],
            require_all: false,
        },
        Rule {
            name: "Linux_History_Wipe",
            description: "Effacement de traces Linux (history, logs)",
            severity: Severity::High,
            patterns: vec![Pattern::StringInsensitive("history -c"), Pattern::StringInsensitive("rm -rf /var/log"), Pattern::StringInsensitive("shred -u")],
            require_all: false,
        },
    ];
    proof {
        assert(rule_view(rules@[0]) =~~= default_rules()[0]);
        assert(rule_view(rules@[1]) =~~= default_rules()[1]);
        assert(rule_view(rules@[2]) =~~= default_rules()[2]);
        assert(rule_view(rules@[3]) =~~= default_rules()[3]);
        assert(rule_view(rules@[4]) =~~= default_rules()[4]);
        assert(rule_view(rules@[5]) =~~= default_rules()[5]);
        assert(rule_view(rules@[6]) =~~= default_rules()[6]);
        assert(rule_view(rules@[7]) =~~= default_rules()[7]);
        assert(rule_view(rules@[8]) =~~= default_rules()[8]);
        assert(rule_view(rules@[9]) =~~= default_rules()[9]);
        assert(rule_view(rules@[10]) =~~= default_rules()[10]);
        assert(rule_view(rules@[11]) =~~= default_rules()[11]);
        assert(rule_view(rules@[12]) =~~= default_rules()[12]);
        assert(rule_view(rules@[13]) =~~= default_rules()[13]);
        assert(rule_view(rules@[14]) =~~= default_rules()[14]);
        assert(rule_view(rules@[15]) =~~= default_rules()[15]);
        assert(rule_view(rules@[16]) =~~= default_rules()[16]);
        assert(rule_view(rules@[17]) =~~= default_rules()[17]);
        assert(rule_view(rules@[18]) =~~= default_rules()[18]);
        assert(rule_view(rules@[19]) =~~= default_rules()[19]);
        assert(rule_view(rules@[20]) =~~= default_rules()[20]);
        assert(rule_view(rules@[21]) =~~= default_rules()[21]);
        assert(rule_view(rules@[22]) =~~= default_rules()[22]);
        assert(rule_view(rules@[23]) =~~= default_rules()[23]);
        assert(rule_view(rules@[24]) =~~= default_rules()[24]);
        assert(rule_view(rules@[25]) =~~= default_rules()[25]);
        assert(rule_view(rules@[26]) =~~= default_rules()[26]);
        assert(rule_view(rules@[27]) =~~= default_rules()[27]);
        assert(rule_view(rules@[28]) =~~= default_rules()[28]);
        assert(rule_view(rules@[29]) =~~= default_rules()[29]);
        assert(rule_view(rules@[30]) =~~= default_rules()[30]);
        assert(rule_view(rules@[31]) =~~= default_rules()[31]);
        assert(rule_view(rules@[32]) =~~= default_rules()[32]);
        assert(rule_view(rules@[33]) =~~= default_rules()[33]);
        assert(rule_view(rules@[34]) =~~= default_rules()[34]);
        assert(rule_view(rules@[35]) =~~= default_rules()[35]);
        assert(rule_view(rules@[36]) =~~= default_rules()[36]);
        assert(rule_view(rules@[37]) =~~= default_rules()[37]);
        assert(rules@.map_values(|r: Rule| rule_view(r)) =~= default_rules());
    }
    rules
}

fn hex_upper_exec(d: u8) -> (c: char)
    requires
        d < 16,
    ensures
        c == hex_upper_digit(d as nat),
{
    if d < 10 { (d + 48) as char } else { (d + 55) as char }
}

fn hex_join_exec(bs: &[u8]) -> (r: Vec<char>)
    ensures
        r@ == hex_join(bs@),
{
    let mut out: Vec<char> = Vec::new();
    let mut i: usize = 0;
    while i < bs.len()
        invariant
            i <= bs@.len(),
            out@ == hex_join(bs@.take(i as int)),
        decreases bs@.len() - i,
    {
        let b = bs[i];
        if i > 0 {
            out.push(' ');
        }
        out.push(hex_upper_exec(b / 16));
        out.push(hex_upper_exec(b % 16));
        proof {
            assert(bs@.take(i + 1).drop_last() =~= bs@.take(i as int));
            assert(bs@.take(i + 1).last() == b);
            if i == 0 {
                assert(out@ =~= hex_join(bs@.take(i + 1)));
            } else {
                assert(out@ =~= hex_join(bs@.take(i + 1)));
            }
        }
        i += 1;
    }
    proof {
        assert(bs@.take(bs@.len() as int) =~= bs@);
    }
    out
}

fn quote_chars(inner: &[char]) -> (r: Vec<char>)
    ensures
        r@ == quoted(inner@),
{
    let mut out: Vec<char> = Vec::new();
    out.push('"');
    let mut i: usize = 0;
    while i < inner.len()
        invariant
            i <= inner@.len(),
            out@ == seq!['"'] + inner@.take(i as int),
        decreases inner@.len() - i,
    {
        out.push(inner[i]);
        i += 1;
        proof {
            assert(out@ =~= seq!['"'] + inner@.take(i as int));
        }
    }
    out.push('"');
    proof {
        assert(inner@.take(inner@.len() as int) =~= inner@);
        assert(out@ =~= quoted(inner@));
    }
    out
}

fn bytes_report(needle: &[u8]) -> (r: Vec<char>)
    ensures
        r@ == pattern_report(PatternView::Bytes(needle@)),
{
    let mut printable = true;
    let mut as_chars: Vec<char> = Vec::new();
    let mut i: usize = 0;
    while i < needle.len()
        invariant
            i <= needle@.len(),
            printable == forall|k: int| 0 <= k < i ==> printable_byte(#[trigger] needle@[k]),
            as_chars@ == needle@.take(i as int).map_values(|x: u8| x as char),
        decreases needle@.len() - i,
    {
        let b = needle[i];
        if !((0x21 <= b && b <= 0x7e) || b == 0x20) {
            printable = false;
        }
        as_chars.push(b as char);
        i += 1;
        proof {
            assert(as_chars@ =~= needle@.take(i as int).map_values(|x: u8| x as char));
        }
    }
    proof {
        assert(needle@.take(needle@.len() as int) =~= needle@);
    }
    if printable {
        quote_chars(as_chars.as_slice())
    } else {
        let mut out = chars_of("hex: ");
        let mut hex = hex_join_exec(needle);
        out.append(&mut hex);
        out
    }
}

/// The report of a pattern when it occurs in `data`, `None` when it does not.
/// `lower_data` is `data` lower-cased byte by byte.
pub fn match_pattern_desc(data: &[u8], lower_data: &[u8], pattern: &Pattern) -> (r: Option<String>)
    requires
        lower_data@ == ascii_lower_seq(data@),
    ensures
        r is Some <==> pattern_occurs(data@, pattern_view(*pattern)),
        r matches Some(s) ==> s@ == pattern_report(pattern_view(*pattern)),
{
    match pattern {
        Pattern::Bytes(needle) => {
            if contains_bytes(data, needle) {
                let desc = bytes_report(needle);
                Some(string_of(desc.as_slice()))
            } else {
                None
            }
        },
        Pattern::StringInsensitive(s) => {
            let lowered = to_lowercase(s);
            if contains_bytes(lower_data, lowered.as_str().as_bytes()) {
                let inner = chars_of(s);
                let desc = quote_chars(inner.as_slice());
                Some(string_of(desc.as_slice()))
            } else {
                None
            }
        },
    }
}

/// The pattern-rule engine with the built-in rule set.
pub struct YaraEngine {
    rules: Vec<Rule>,
}

impl YaraEngine {
    /// The rules of the engine, as values.
    pub closed spec fn rule_set(&self) -> Seq<RuleView> {
        self.rules@.map_values(|r: Rule| rule_view(r))
    }

    /// An engine holding the built-in rule set.
    pub fn new() -> (e: Self)
        ensures
            e.rule_set() == default_rules(),
    {
        YaraEngine { rules: build_rules() }
    }

    /// Runs every rule over `data`; the matches come in the order of the
    /// rules, each with the reports of its patterns that occur.
    pub fn scan(&self, data: &[u8]) -> (matches: Vec<YaraMatch>)
        ensures
            matches@.map_values(|m: YaraMatch| match_view(m)) == scan_matches(data@, self.rule_set()),
    {
        let lower_data = bytes_to_ascii_lower(data);
        let ghost rules = self.rule_set();
        let mut matches: Vec<YaraMatch> = Vec::new();
        let mut i: usize = 0;
        while i < self.rules.len()
            invariant
                rules == self.rule_set(),
                lower_data@ == ascii_lower_seq(data@),
                i <= self.rules@.len(),
                matches@.map_values(|m: YaraMatch| match_view(m)) == scan_matches(data@, rules.take(i as int)),
            decreases self.rules@.len() - i,
        {
            let rule = &self.rules[i];
            let ghost rv = rule_view(*rule);
            let mut matched: Vec<String> = Vec::new();
            let mut j: usize = 0;
            while j < rule.patterns.len()
                invariant
                    rv == rule_view(*rule),
                    lower_data@ == ascii_lower_seq(data@),
                    j <= rule.patterns@.len(),
                    matched@.map_values(|s: String| s@) == pattern_reports(data@, rv.patterns.take(j as int)),
                decreases rule.patterns@.len() - j,
            {
                let hit = match_pattern_desc(data, lower_data.as_slice(), &rule.patterns[j]);
                proof {
                    assert(rv.patterns.take(j + 1).drop_last() =~= rv.patterns.take(j as int));
                    assert(rv.patterns.take(j + 1).last() == pattern_view(rule.patterns@[j as int]));
                }
                match hit {
                    Some(desc) => {
                        matched.push(desc);
                        proof {
                            assert(matched@.map_values(|s: String| s@) =~= pattern_reports(data@, rv.patterns.take(j + 1)));
                        }
                    },
                    None => {},
                }
                j += 1;
            }
            proof {
                assert(rv.patterns.take(rule.patterns@.len() as int) =~= rv.patterns);
                assert(rules.take(i + 1).drop_last() =~= rules.take(i as int));
                assert(rules.take(i + 1).last() == rv);
            }
            let triggered = if rule.require_all {
                matched.len() == rule.patterns.len()
            } else {
                matched.len() > 0
            };
            if triggered {
                let m = YaraMatch {
                    rule_name: rule.name.to_owned(),
                    description: rule.description.to_owned(),
                    severity: rule.severity,
                    matched_strings: matched,
                };
                matches.push(m);
                proof {
                    assert(matches@.map_values(|m: YaraMatch| match_view(m)) =~= scan_matches(data@, rules.take(i + 1)));
                }
            }
            i += 1;
        }
        proof {
            assert(rules.take(self.rules@.len() as int) =~= rules);
        }
        matches
    }
}

impl Default for YaraEngine {
    /// The engine with the built-in rule set, as [`YaraEngine::new`] makes it.
    fn default() -> (e: Self)
        ensures
            e.rule_set() == default_rules(),
    {
        YaraEngine::new()
    }
}

/// `f` places the items of `a` in `b`, in the same order: item `i` of `a`
/// is item `f(i)` of `b`, and `f` is strictly increasing.
pub open spec fn placed_in_order(a: Seq<Seq<char>>, b: Seq<Seq<char>>, f: spec_fn(int) -> int) -> bool {
    &&& forall|i: int| 0 <= i < a.len() ==> 0 <= #[trigger] f(i) < b.len() && b[f(i)] == a[i]
    &&& forall|i: int, j: int| 0 <= i < j < a.len() ==> #[trigger] f(i) < #[trigger] f(j)
}

/// `a` is a subsequence of `b`: `b` holds the items of `a` in the same
/// order, possibly with others between them.
pub open spec fn reports_within(a: Seq<Seq<char>>, b: Seq<Seq<char>>) -> bool {
    exists|f: spec_fn(int) -> int| #[trigger] placed_in_order(a, b, f)
}

/// `m2` holds a match of the same rule as `m`, reporting at least the same
/// patterns, in the same order.
pub open spec fn has_kept_hit(
    m: (Seq<char>, Seq<char>, Severity, Seq<Seq<char>>),
    m2: Seq<(Seq<char>, Seq<char>, Severity, Seq<Seq<char>>)>,
) -> bool {
    exists|j: int| 0 <= j < m2.len() && m2[j].0 == m.0 && reports_within(m.3, #[trigger] m2[j].3)
}

/// Every rule match of `m1` has a match of the same rule in `m2` that
/// reports at least the same patterns, in the same order.
pub open spec fn hits_kept(
    m1: Seq<(Seq<char>, Seq<char>, Severity, Seq<Seq<char>>)>,
    m2: Seq<(Seq<char>, Seq<char>, Severity, Seq<Seq<char>>)>,
) -> bool {
    forall|i: int| 0 <= i < m1.len() ==> #[trigger] has_kept_hit(m1[i], m2)
}

/// A block found in `x` is found in `p + x + q`.
proof fn contained_in_larger(x: Seq<u8>, p: Seq<u8>, q: Seq<u8>, n: Seq<u8>)
    requires
        seq_contains(x, n),
    ensures
        seq_contains(p + x + q, n),
{
    let i = choose|i: int| 0 <= i <= x.len() - n.len() && #[trigger] x.subrange(i, i + n.len()) == n;
    let y = p + x + q;
    assert(y.subrange(p.len() + i, p.len() + i + n.len()) =~= x.subrange(i, i + n.len()));
}

/// A pattern found in `data` is found in a file that contains it.
proof fn pattern_found_in_larger(a: Seq<u8>, data: Seq<u8>, b: Seq<u8>, pat: PatternView)
    requires
        pattern_occurs(data, pat),
    ensures
        pattern_occurs(a + data + b, pat),
{
    match pat {
        PatternView::Bytes(n) => {
            contained_in_larger(data, a, b, n);
        },
        PatternView::Insensitive(t) => {
            assert(ascii_lower_seq(a + data + b) =~= ascii_lower_seq(a) + ascii_lower_seq(data) + ascii_lower_seq(b));
            contained_in_larger(ascii_lower_seq(data), ascii_lower_seq(a), ascii_lower_seq(b),
                vstd::utf8::encode_utf8(unicode_lower(t)));
        },
    }
}

/// A file that contains `data` reports at least its patterns, in the same
/// order.
proof fn reports_grow(a: Seq<u8>, data: Seq<u8>, b: Seq<u8>, ps: Seq<PatternView>)
    ensures
        pattern_reports(data, ps).len() <= pattern_reports(a + data + b, ps).len() <= ps.len(),
        reports_within(pattern_reports(data, ps), pattern_reports(a + data + b, ps)),
    decreases ps.len(),
{
    if ps.len() == 0 {
        let f = |i: int| i;
        assert(placed_in_order(pattern_reports(data, ps), pattern_reports(a + data + b, ps), f));
    } else {
        reports_grow(a, data, b, ps.drop_last());
        let r1 = pattern_reports(data, ps.drop_last());
        let r2 = pattern_reports(a + data + b, ps.drop_last());
        if pattern_occurs(data, ps.last()) {
            pattern_found_in_larger(a, data, b, ps.last());
        }
        let x1 = pattern_reports(data, ps);
        let x2 = pattern_reports(a + data + b, ps);
        let f = choose|f: spec_fn(int) -> int| #[trigger] placed_in_order(r1, r2, f);
        if pattern_occurs(data, ps.last()) {
            let g = |i: int| if i < r1.len() { f(i) } else { r2.len() as int };
            assert(placed_in_order(x1, x2, g));
        } else {
            assert(placed_in_order(x1, x2, f));
        }
    }
}

/// A file that contains another keeps every pattern-rule hit of it: each
/// rule that fires on the inner file fires on the outer one, with at least
/// the same pattern reports, in the same order.
pub proof fn containing_file_keeps_every_hit(a: Seq<u8>, data: Seq<u8>, b: Seq<u8>, rules: Seq<RuleView>)
    ensures
        hits_kept(scan_matches(data, rules), scan_matches(a + data + b, rules)),
    decreases rules.len(),
{
    let big = a + data + b;
    if rules.len() > 0 {
        containing_file_keeps_every_hit(a, data, b, rules.drop_last());
        let r = rules.last();
        reports_grow(a, data, b, r.patterns);
        let p1 = scan_matches(data, rules.drop_last());
        let p2 = scan_matches(big, rules.drop_last());
        let m1 = scan_matches(data, rules);
        let m2 = scan_matches(big, rules);
        assert forall|i: int| 0 <= i < m1.len() implies #[trigger] has_kept_hit(m1[i], m2) by {
            if i < p1.len() {
                assert(m1[i] == p1[i]);
                assert(has_kept_hit(p1[i], p2));
                let j = choose|j: int| 0 <= j < p2.len() && p2[j].0 == p1[i].0 && reports_within(p1[i].3, #[trigger] p2[j].3);
                assert(m2[j] == p2[j]);
            } else {
                assert(rule_fires(big, r));
                let j = m2.len() - 1;
                assert(m2[j].0 == m1[i].0 && reports_within(m1[i].3, m2[j].3));
            }
        }
        assert(hits_kept(m1, m2));
    } else {
        assert(hits_kept(scan_matches(data, rules), scan_matches(big, rules)));
    }
}

} // verus!
