use crate::text::{decimal, join_sep, views_of};
use vstd::prelude::*;

verus! {

/// Format of the replicon table a job is initialised with.
#[derive(Clone, Copy, Debug, PartialEq, Eq, Structural)]
pub enum RepliconTableType {
    CSV,
    TSV,
}

impl Default for RepliconTableType {
    fn default() -> (r: Self)
        ensures
            r == RepliconTableType::CSV,
    {
        RepliconTableType::CSV
    }
}

/// Body of a job initialisation request.
pub struct InitRequest {
    pub name: String,
    pub replicon_type: RepliconTableType,
}

/// Cell envelope of the organism, which selects the `--gram` flag.
#[derive(Clone, Copy, Debug, PartialEq, Eq, Structural)]
pub enum DermType {
    UNKNOWN,
    MONODERM,
    DIDERM,
}

/// Versions reported by the version endpoint.
pub struct VersionResponse {
    pub tool: String,
    pub db: String,
    pub backend: String,
}

impl VersionResponse {
    pub fn copy(&self) -> (r: Self)
        ensures
            r.tool@ == self.tool@,
            r.db@ == self.db@,
            r.backend@ == self.backend@,
    {
        VersionResponse { tool: self.tool.clone(), db: self.db.clone(), backend: self.backend.clone() }
    }
}

/// Whether a job has a replicon table when a request leaves it out.
pub fn default_replicons() -> (r: bool)
    ensures
        r,
{
    true
}

/// Annotation settings of a job.
pub struct JobConfig {
    pub prodigal: Option<String>,
    pub replicons: bool,
    pub table: u8,
    pub complete: bool,
    pub headers: bool,
    pub min_length: u64,
    pub derm: Option<DermType>,
    pub genus: Option<String>,
    pub species: Option<String>,
    pub strain: Option<String>,
    pub plasmid: Option<String>,
    pub locus: Option<String>,
    pub locus_tag: Option<String>,
    pub compliant: bool,
}

impl Default for JobConfig {
    fn default() -> (r: Self)
        ensures
            r.prodigal is None,
            !r.replicons,
            r.table == 0,
            !r.complete,
            !r.headers,
            r.min_length == 0,
            r.derm is None,
            r.genus is None,
            r.species is None,
            r.strain is None,
            r.plasmid is None,
            r.locus is None,
            r.locus_tag is None,
            !r.compliant,
    {
        JobConfig {
            prodigal: None,
            replicons: false,
            table: 0,
            complete: false,
            headers: false,
            min_length: 0,
            derm: None,
            genus: None,
            species: None,
            strain: None,
            plasmid: None,
            locus: None,
            locus_tag: None,
            compliant: false,
        }
    }
}

/// `seq![w]` when `b` holds, else nothing.
pub open spec fn word_if(b: bool, w: Seq<char>) -> Seq<Seq<char>> {
    if b {
        seq![w]
    } else {
        Seq::empty()
    }
}

/// `flag` followed by the value, when the value is present and not empty.
pub open spec fn value_word(v: Option<String>, flag: Seq<char>) -> Seq<Seq<char>> {
    match v {
        Some(s) => word_if(s@.len() > 0, flag + s@),
        None => Seq::empty(),
    }
}

/// The organism envelope flag; an absent or unknown envelope gives `--gram ?`.
pub open spec fn gram_word(d: Option<DermType>) -> Seq<char> {
    match d {
        Some(DermType::MONODERM) => "--gram +"@,
        Some(DermType::DIDERM) => "--gram -"@,
        _ => "--gram ?"@,
    }
}

/// The annotation tool's flags for `c`, in their fixed order.
pub open spec fn parameter_words(c: JobConfig) -> Seq<Seq<char>> {
    word_if(c.min_length > 1, "--min-contig-length "@ + decimal(c.min_length as nat))
        + word_if(c.prodigal is Some, "--prodigal /data/prodigal.tf"@)
        + word_if(c.replicons, "--replicons /data/replicons.tsv"@)
        + word_if(c.complete, "--complete"@)
        + value_word(c.locus, "--locus "@)
        + value_word(c.locus_tag, "--locus-tag "@)
        + word_if(c.headers, "--keep-contig-headers"@)
        + value_word(c.genus, "--genus "@)
        + value_word(c.species, "--species "@)
        + value_word(c.strain, "--strain "@)
        + value_word(c.plasmid, "--plasmid "@)
        + word_if(c.compliant, "--compliant"@)
        + word_if(c.table == 4, "--translation-table 4"@)
        + seq![gram_word(c.derm)]
}

/// The parameter string handed to the annotation tool for `c`.
pub open spec fn parameters_of(c: JobConfig) -> Seq<char> {
    join_sep(parameter_words(c), ' ')
}

fn push_word(words: &mut Vec<String>, w: &str)
    ensures
        views_of(final(words)@) == views_of(old(words)@) + seq![w@],
{
    let ghost before = views_of(words@);
    words.push(String::from_str(w));
    assert(views_of(words@) =~= before + seq![w@]);
}

fn push_value(words: &mut Vec<String>, v: Option<String>, flag: &str)
    ensures
        views_of(final(words)@) == views_of(old(words)@) + value_word(v, flag@),
{
    let ghost before = views_of(words@);
    match v {
        Some(s) => {
            if s.as_str().unicode_len() > 0 {
                let w = String::from_str(flag).concat(s.as_str());
                words.push(w);
                assert(views_of(words@) =~= before + value_word(v, flag@));
            } else {
                assert(value_word(v, flag@) =~= Seq::<Seq<char>>::empty());
                assert(views_of(words@) =~= before + value_word(v, flag@));
            }
        },
        None => {
            assert(views_of(words@) =~= before + value_word(v, flag@));
        },
    }
}

impl JobConfig {
    /// The parameter string for the annotation tool: each optional flag in
    /// its fixed order when its field is set, then exactly one `--gram`
    /// flag, all separated by single spaces.
    pub fn into_parameters(self) -> (r: String)
        ensures
            r@ == parameters_of(self),
    {
        let ghost c = self;
        let mut words: Vec<String> = Vec::new();
        let ghost mut acc: Seq<Seq<char>> = Seq::empty();
        assert(views_of(words@) =~= acc);
        if self.min_length > 1 {
            let w = String::from_str("--min-contig-length ").concat(
                crate::text::u64_to_decimal(self.min_length).as_str(),
            );
            words.push(w);
        }
        proof {
            acc = acc + word_if(c.min_length > 1, "--min-contig-length "@ + decimal(
                c.min_length as nat,
            ));
        }
        assert(views_of(words@) =~= acc);
        if self.prodigal.is_some() {
            push_word(&mut words, "--prodigal /data/prodigal.tf");
        }
        proof {
            acc = acc + word_if(c.prodigal is Some, "--prodigal /data/prodigal.tf"@);
        }
        assert(views_of(words@) =~= acc);
        if self.replicons {
            push_word(&mut words, "--replicons /data/replicons.tsv");
        }
        proof {
            acc = acc + word_if(c.replicons, "--replicons /data/replicons.tsv"@);
        }
        assert(views_of(words@) =~= acc);
        if self.complete {
            push_word(&mut words, "--complete");
        }
        proof {
            acc = acc + word_if(c.complete, "--complete"@);
        }
        assert(views_of(words@) =~= acc);
        push_value(&mut words, self.locus, "--locus ");
        push_value(&mut words, self.locus_tag, "--locus-tag ");
        proof {
            acc = acc + value_word(c.locus, "--locus "@) + value_word(c.locus_tag, "--locus-tag "@);
        }
        assert(views_of(words@) =~= acc);
        if self.headers {
            push_word(&mut words, "--keep-contig-headers");
        }
        proof {
            acc = acc + word_if(c.headers, "--keep-contig-headers"@);
        }
        assert(views_of(words@) =~= acc);
        push_value(&mut words, self.genus, "--genus ");
        push_value(&mut words, self.species, "--species ");
        push_value(&mut words, self.strain, "--strain ");
        push_value(&mut words, self.plasmid, "--plasmid ");
        proof {
            acc = acc + value_word(c.genus, "--genus "@) + value_word(c.species, "--species "@)
                + value_word(c.strain, "--strain "@) + value_word(c.plasmid, "--plasmid "@);
        }
        assert(views_of(words@) =~= acc);
        if self.compliant {
            push_word(&mut words, "--compliant");
        }
        proof {
            acc = acc + word_if(c.compliant, "--compliant"@);
        }
        assert(views_of(words@) =~= acc);
        if self.table == 4 {
            push_word(&mut words, "--translation-table 4");
        }
        proof {
            acc = acc + word_if(c.table == 4, "--translation-table 4"@);
        }
        assert(views_of(words@) =~= acc);
        match self.derm {
            Some(DermType::MONODERM) => push_word(&mut words, "--gram +"),
            Some(DermType::DIDERM) => push_word(&mut words, "--gram -"),
            _ => push_word(&mut words, "--gram ?"),
        }
        proof {
            acc = acc + seq![gram_word(c.derm)];
        }
        assert(views_of(words@) =~= acc);
        assert(acc =~= parameter_words(c));
        crate::text::join_strings(&words, ' ')
    }
}

/// The annotation tool's flags, in the order they are written.
pub open spec fn flag_names() -> Seq<Seq<char>> {
    seq![
        "--min-contig-length"@,
        "--prodigal"@,
        "--replicons"@,
        "--complete"@,
        "--locus"@,
        "--locus-tag"@,
        "--keep-contig-headers"@,
        "--genus"@,
        "--species"@,
        "--strain"@,
        "--plasmid"@,
        "--compliant"@,
        "--translation-table"@,
        "--gram"@,
    ]
}

/// The words that flag `k` of `flag_names` contributes for `c`.
pub open spec fn flag_piece(c: JobConfig, k: int) -> Seq<Seq<char>> {
    if k == 0 {
        word_if(c.min_length > 1, "--min-contig-length "@ + decimal(c.min_length as nat))
    } else if k == 1 {
        word_if(c.prodigal is Some, "--prodigal /data/prodigal.tf"@)
    } else if k == 2 {
        word_if(c.replicons, "--replicons /data/replicons.tsv"@)
    } else if k == 3 {
        word_if(c.complete, "--complete"@)
    } else if k == 4 {
        value_word(c.locus, "--locus "@)
    } else if k == 5 {
        value_word(c.locus_tag, "--locus-tag "@)
    } else if k == 6 {
        word_if(c.headers, "--keep-contig-headers"@)
    } else if k == 7 {
        value_word(c.genus, "--genus "@)
    } else if k == 8 {
        value_word(c.species, "--species "@)
    } else if k == 9 {
        value_word(c.strain, "--strain "@)
    } else if k == 10 {
        value_word(c.plasmid, "--plasmid "@)
    } else if k == 11 {
        word_if(c.compliant, "--compliant"@)
    } else if k == 12 {
        word_if(c.table == 4, "--translation-table 4"@)
    } else {
        seq![gram_word(c.derm)]
    }
}

/// The words of the first `n` flags.
pub open spec fn words_upto(c: JobConfig, n: int) -> Seq<Seq<char>>
    decreases n,
{
    if n <= 0 {
        Seq::empty()
    } else {
        words_upto(c, n - 1) + flag_piece(c, n - 1)
    }
}

/// Positions in `flag_names` of the words of the first `n` flags.
pub open spec fn positions_upto(c: JobConfig, n: int) -> Seq<int>
    decreases n,
{
    if n <= 0 {
        Seq::empty()
    } else {
        positions_upto(c, n - 1) + Seq::new(flag_piece(c, n - 1).len(), |i: int| n - 1)
    }
}

/// `w` is flag `f` alone or followed by a space and a value.
pub open spec fn is_flag_word(w: Seq<char>, f: Seq<char>) -> bool {
    w == f || (w.len() > f.len() && w.subrange(0, f.len() as int) == f && w[f.len() as int] == ' ')
}

proof fn lemma_piece_shape(c: JobConfig, k: int)
    requires
        0 <= k < 14,
    ensures
        flag_piece(c, k).len() <= 1,
        k == 13 ==> flag_piece(c, k).len() == 1,
        forall|i: int|
            0 <= i < flag_piece(c, k).len() ==> is_flag_word(
                #[trigger] flag_piece(c, k)[i],
                flag_names()[k],
            ),
{
    reveal_strlit("--min-contig-length ");
    reveal_strlit("--min-contig-length");
    reveal_strlit("--prodigal /data/prodigal.tf");
    reveal_strlit("--prodigal");
    reveal_strlit("--replicons /data/replicons.tsv");
    reveal_strlit("--replicons");
    reveal_strlit("--locus ");
    reveal_strlit("--locus");
    reveal_strlit("--locus-tag ");
    reveal_strlit("--locus-tag");
    reveal_strlit("--genus ");
    reveal_strlit("--genus");
    reveal_strlit("--species ");
    reveal_strlit("--species");
    reveal_strlit("--strain ");
    reveal_strlit("--strain");
    reveal_strlit("--plasmid ");
    reveal_strlit("--plasmid");
    reveal_strlit("--translation-table 4");
    reveal_strlit("--translation-table");
    reveal_strlit("--gram +");
    reveal_strlit("--gram -");
    reveal_strlit("--gram ?");
    reveal_strlit("--gram");
    let p = flag_piece(c, k);
    let f = flag_names()[k];
    assert forall|i: int| 0 <= i < p.len() implies is_flag_word(#[trigger] p[i], f) by {
        let w = p[i];
        if w != f {
            assert(w.subrange(0, f.len() as int) =~= f);
        }
    }
}

/// The parameter words of a config are flags of `flag_names` in its
/// order, each at most once, and end with the one `--gram` flag: word `i`
/// is the flag at position `positions_upto(c, 14)[i]`, and those positions
/// strictly increase.
pub proof fn lemma_parameter_order(c: JobConfig)
    ensures
        parameter_words(c) == words_upto(c, 14),
        positions_upto(c, 14).len() == parameter_words(c).len(),
        forall|i: int, j: int|
            0 <= i < j < positions_upto(c, 14).len() ==> positions_upto(c, 14)[i]
                < positions_upto(c, 14)[j],
        forall|i: int|
            0 <= i < parameter_words(c).len() ==> 0 <= #[trigger] positions_upto(c, 14)[i] < 14
                && is_flag_word(parameter_words(c)[i], flag_names()[positions_upto(c, 14)[i]]),
        positions_upto(c, 14).last() == 13,
{
    reveal_with_fuel(words_upto, 15);
    assert(parameter_words(c) =~= words_upto(c, 14));
    lemma_order_upto(c, 14);
    lemma_piece_shape(c, 13);
}

proof fn lemma_order_upto(c: JobConfig, n: int)
    requires
        0 <= n <= 14,
    ensures
        positions_upto(c, n).len() == words_upto(c, n).len(),
        forall|i: int|
            0 <= i < positions_upto(c, n).len() ==> 0 <= #[trigger] positions_upto(c, n)[i] < n
                && is_flag_word(words_upto(c, n)[i], flag_names()[positions_upto(c, n)[i]]),
        forall|i: int, j: int|
            0 <= i < j < positions_upto(c, n).len() ==> positions_upto(c, n)[i] < positions_upto(
                c,
                n,
            )[j],
    decreases n,
{
    if n > 0 {
        lemma_order_upto(c, n - 1);
        lemma_piece_shape(c, n - 1);
        let pw = words_upto(c, n - 1);
        let pp = positions_upto(c, n - 1);
        let piece = flag_piece(c, n - 1);
        assert forall|i: int|
            0 <= i < positions_upto(c, n).len() implies 0 <= #[trigger] positions_upto(c, n)[i] < n
            && is_flag_word(words_upto(c, n)[i], flag_names()[positions_upto(c, n)[i]]) by {
            if i >= pp.len() {
                assert(words_upto(c, n)[i] == piece[i - pp.len()]);
            } else {
                assert(words_upto(c, n)[i] == pw[i]);
            }
        }
    }
}

} // verus!
