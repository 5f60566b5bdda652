use vstd::prelude::*;

use crate::errors::PQRSError;
use crate::gateway;
use crate::stream::sum_sizes;
use crate::text::str_eq;

verus! {

/// Optional writer tuning for the merge output: a dictionary-encoding
/// default, per-column dictionary and encoding overrides, and a compression
/// algorithm with an algorithm-specific level. Names are plain text here;
/// validation turns them into the closed enumerations below, and an
/// unrecognized name or an out-of-range level is a configuration error, not
/// a silent fallback.
#[derive(Debug, Clone, PartialEq, Eq)]
pub struct MergeWriteConfig {
    /// Writer-wide dictionary-encoding default.
    pub dictionary_enabled: Option<bool>,
    /// Per-column dictionary-encoding overrides, keyed by column path.
    pub column_dictionary: Vec<(String, bool)>,
    /// Per-column encoding overrides, keyed by column path.
    pub column_encodings: Vec<(String, String)>,
    /// Compression algorithm name.
    pub compression: Option<String>,
    /// Compression level for the chosen algorithm.
    pub compression_level: Option<i64>,
}

/// The closed set of column encodings the output writer accepts as
/// per-column overrides. The two dictionary encodings are not in it: the
/// writer drives them through its dictionary-enabled switches and refuses
/// them as direct overrides, so their names are configuration errors here.
#[derive(Debug, Clone, Copy, PartialEq, Eq)]
pub enum ColumnEncoding {
    Plain,
    Rle,
    BitPacked,
    DeltaBinaryPacked,
    DeltaLengthByteArray,
    DeltaByteArray,
    ByteStreamSplit,
}

/// The closed set of compression codecs the output writer knows, with the
/// level resolved where the codec takes one.
#[derive(Debug, Clone, Copy, PartialEq, Eq)]
pub enum CompressionCodec {
    Uncompressed,
    Snappy,
    Gzip(Option<i64>),
    Lzo,
    Brotli(Option<i64>),
    Lz4,
    Zstd(Option<i64>),
    Lz4Raw,
}

/// The encoding that a name denotes, if any.
pub open spec fn encoding_of(name: Seq<char>) -> Option<ColumnEncoding> {
    if name == "plain"@ {
        Option::Some(ColumnEncoding::Plain)
    } else if name == "rle"@ {
        Option::Some(ColumnEncoding::Rle)
    } else if name == "bit_packed"@ {
        Option::Some(ColumnEncoding::BitPacked)
    } else if name == "delta_binary_packed"@ {
        Option::Some(ColumnEncoding::DeltaBinaryPacked)
    } else if name == "delta_length_byte_array"@ {
        Option::Some(ColumnEncoding::DeltaLengthByteArray)
    } else if name == "delta_byte_array"@ {
        Option::Some(ColumnEncoding::DeltaByteArray)
    } else if name == "byte_stream_split"@ {
        Option::Some(ColumnEncoding::ByteStreamSplit)
    } else {
        Option::None
    }
}

/// Whether `level` is acceptable for the codec named `name`: gzip takes
/// levels 0 to 9, brotli 0 to 11 and zstd -131072 to 22 (the ranges the
/// format library itself enforces); the other codecs take no level at all.
pub open spec fn level_ok(name: Seq<char>, level: Option<i64>) -> bool {
    if name == "gzip"@ {
        level matches Option::Some(l) ==> 0 <= l <= 9
    } else if name == "brotli"@ {
        level matches Option::Some(l) ==> 0 <= l <= 11
    } else if name == "zstd"@ {
        level matches Option::Some(l) ==> -131072 <= l <= 22
    } else {
        level is None
    }
}

/// The codec that a name and level denote, if the name is known and the
/// level in range.
pub open spec fn compression_of(name: Seq<char>, level: Option<i64>) -> Option<CompressionCodec> {
    if !level_ok(name, level) {
        Option::None
    } else if name == "uncompressed"@ {
        Option::Some(CompressionCodec::Uncompressed)
    } else if name == "snappy"@ {
        Option::Some(CompressionCodec::Snappy)
    } else if name == "gzip"@ {
        Option::Some(CompressionCodec::Gzip(level))
    } else if name == "lzo"@ {
        Option::Some(CompressionCodec::Lzo)
    } else if name == "brotli"@ {
        Option::Some(CompressionCodec::Brotli(level))
    } else if name == "lz4"@ {
        Option::Some(CompressionCodec::Lz4)
    } else if name == "zstd"@ {
        Option::Some(CompressionCodec::Zstd(level))
    } else if name == "lz4_raw"@ {
        Option::Some(CompressionCodec::Lz4Raw)
    } else {
        Option::None
    }
}

/// Turns an encoding name into the closed enumeration, or reports it as a
/// configuration error. The dictionary encodings' names are refused: the
/// writer panics on them as overrides and takes them only through its
/// dictionary-enabled switches.
pub fn parse_encoding(name: &str) -> (r: Result<ColumnEncoding, PQRSError>)
    ensures
        r is Ok <==> encoding_of(name@) is Some,
        r is Ok ==> Option::Some(r->Ok_0) == encoding_of(name@),
        r is Err ==> r matches Err(PQRSError::InvalidConfigurationValue(_)),
{
    proof {
        reveal_strlit("plain");
        reveal_strlit("rle");
        reveal_strlit("bit_packed");
        reveal_strlit("delta_binary_packed");
        reveal_strlit("delta_length_byte_array");
        reveal_strlit("delta_byte_array");
        reveal_strlit("byte_stream_split");
        assert("plain"@.len() == 5);
        assert("rle"@.len() == 3);
        assert("bit_packed"@.len() == 10);
        assert("delta_binary_packed"@.len() == 19);
        assert("delta_length_byte_array"@.len() == 23);
        assert("delta_byte_array"@.len() == 16);
        assert("byte_stream_split"@.len() == 17);
    }
    if str_eq(name, "plain") {
        Ok(ColumnEncoding::Plain)
    } else if str_eq(name, "rle") {
        Ok(ColumnEncoding::Rle)
    } else if str_eq(name, "bit_packed") {
        Ok(ColumnEncoding::BitPacked)
    } else if str_eq(name, "delta_binary_packed") {
        Ok(ColumnEncoding::DeltaBinaryPacked)
    } else if str_eq(name, "delta_length_byte_array") {
        Ok(ColumnEncoding::DeltaLengthByteArray)
    } else if str_eq(name, "delta_byte_array") {
        Ok(ColumnEncoding::DeltaByteArray)
    } else if str_eq(name, "byte_stream_split") {
        Ok(ColumnEncoding::ByteStreamSplit)
    } else {
        Err(PQRSError::InvalidConfigurationValue("unknown column encoding name".to_owned()))
    }
}

/// Turns a compression name and level into the closed enumeration, or
/// reports an unknown name or an out-of-range level as a configuration
/// error.
pub fn parse_compression(name: &str, level: Option<i64>) -> (r: Result<
    CompressionCodec,
    PQRSError,
>)
    ensures
        r is Ok <==> compression_of(name@, level) is Some,
        r is Ok ==> Option::Some(r->Ok_0) == compression_of(name@, level),
        r is Ok ==> codec_level_ok(r->Ok_0),
        r is Err ==> r matches Err(PQRSError::InvalidConfigurationValue(_)),
{
    proof {
        reveal_strlit("uncompressed");
        reveal_strlit("snappy");
        reveal_strlit("gzip");
        reveal_strlit("lzo");
        reveal_strlit("brotli");
        reveal_strlit("lz4");
        reveal_strlit("zstd");
        reveal_strlit("lz4_raw");
        assert("uncompressed"@.len() == 12);
        assert("snappy"@.len() == 6);
        assert("gzip"@.len() == 4);
        assert("lzo"@.len() == 3);
        assert("brotli"@.len() == 6);
        assert("lz4"@.len() == 3);
        assert("zstd"@.len() == 4);
        assert("lz4_raw"@.len() == 7);
        assert("snappy"@[0] == 's' && "brotli"@[0] == 'b');
        assert("lzo"@[2] == 'o' && "lz4"@[2] == '4');
        assert("gzip"@[0] == 'g' && "zstd"@[0] == 'z');
    }
    if str_eq(name, "gzip") {
        if let Some(l) = level {
            if l < 0 || l > 9 {
                return Err(
                    PQRSError::InvalidConfigurationValue(
                        "gzip compression level out of range".to_owned(),
                    ),
                );
            }
        }
        Ok(CompressionCodec::Gzip(level))
    } else if str_eq(name, "brotli") {
        if let Some(l) = level {
            if l < 0 || l > 11 {
                return Err(
                    PQRSError::InvalidConfigurationValue(
                        "brotli compression level out of range".to_owned(),
                    ),
                );
            }
        }
        Ok(CompressionCodec::Brotli(level))
    } else if str_eq(name, "zstd") {
        if let Some(l) = level {
            if l < -131072 || l > 22 {
                return Err(
                    PQRSError::InvalidConfigurationValue(
                        "zstd compression level out of range".to_owned(),
                    ),
                );
            }
        }
        Ok(CompressionCodec::Zstd(level))
    } else if level.is_some() {
        Err(
            PQRSError::InvalidConfigurationValue(
                "compression level given for a codec that takes none".to_owned(),
            ),
        )
    } else if str_eq(name, "uncompressed") {
        Ok(CompressionCodec::Uncompressed)
    } else if str_eq(name, "snappy") {
        Ok(CompressionCodec::Snappy)
    } else if str_eq(name, "lzo") {
        Ok(CompressionCodec::Lzo)
    } else if str_eq(name, "lz4") {
        Ok(CompressionCodec::Lz4)
    } else if str_eq(name, "lz4_raw") {
        Ok(CompressionCodec::Lz4Raw)
    } else {
        Err(PQRSError::InvalidConfigurationValue("unknown compression name".to_owned()))
    }
}

/// Writer tuning with every name resolved against the closed enumerations.
#[derive(Debug, Clone, PartialEq, Eq)]
pub struct ValidatedMergeConfig {
    /// Writer-wide dictionary-encoding default.
    pub dictionary_enabled: Option<bool>,
    /// Per-column dictionary-encoding overrides, keyed by column path.
    pub column_dictionary: Vec<(String, bool)>,
    /// Per-column encoding overrides, keyed by column path.
    pub column_encodings: Vec<(String, ColumnEncoding)>,
    /// Compression codec, with its level resolved.
    pub compression: Option<CompressionCodec>,
}

/// Whether the codec's level, if it carries one, lies in the range the
/// format library accepts for that codec. A missing level denotes the
/// codec's own default level.
pub open spec fn codec_level_ok(c: CompressionCodec) -> bool {
    match c {
        CompressionCodec::Gzip(l) => l matches Option::Some(v) ==> 0 <= v <= 9,
        CompressionCodec::Brotli(l) => l matches Option::Some(v) ==> 0 <= v <= 11,
        CompressionCodec::Zstd(l) => l matches Option::Some(v) ==> -131072 <= v <= 22,
        _ => true,
    }
}

/// The abstract record of the writer tuning applied through the gateway's
/// properties wrappers, on top of the format library's own defaults: `None`
/// fields mean the default was left alone, and the override lists hold what
/// was applied, in order.
pub struct PropsSettings {
    pub dictionary_enabled: Option<bool>,
    pub column_dictionary: Seq<(Seq<char>, bool)>,
    pub column_encodings: Seq<(Seq<char>, ColumnEncoding)>,
    pub compression: Option<CompressionCodec>,
}

/// The settings record of a builder nothing has been applied to.
pub open spec fn no_settings() -> PropsSettings {
    PropsSettings {
        dictionary_enabled: Option::None,
        column_dictionary: Seq::empty(),
        column_encodings: Seq::empty(),
        compression: Option::None,
    }
}

/// The per-column dictionary overrides of a validated configuration, as the
/// settings record carries them.
pub open spec fn column_dictionary_view(entries: Seq<(String, bool)>) -> Seq<(Seq<char>, bool)> {
    entries.map_values(|p: (String, bool)| (p.0@, p.1))
}

/// The per-column encoding overrides of a validated configuration, as the
/// settings record carries them.
pub open spec fn column_encodings_view(entries: Seq<(String, ColumnEncoding)>) -> Seq<
    (Seq<char>, ColumnEncoding),
> {
    entries.map_values(|p: (String, ColumnEncoding)| (p.0@, p.1))
}

/// Whether every encoding name and the compression name and level of the
/// configuration belong to the known sets.
pub open spec fn config_valid(cfg: MergeWriteConfig) -> bool {
    &&& forall|i: int|
        0 <= i < cfg.column_encodings@.len() ==> encoding_of(
            (#[trigger] cfg.column_encodings@[i]).1@,
        ) is Some
    &&& match cfg.compression {
        Option::Some(name) => compression_of(name@, cfg.compression_level) is Some,
        Option::None => cfg.compression_level is None,
    }
}

/// Checks a writer configuration against the known encoding and compression
/// sets, resolving every name; an unrecognized name or an out-of-range
/// level is reported as a configuration error before any output exists.
pub fn validate_merge_config(cfg: &MergeWriteConfig) -> (r: Result<ValidatedMergeConfig, PQRSError>)
    ensures
        r is Ok <==> config_valid(*cfg),
        r is Ok ==> {
            let v = r->Ok_0;
            &&& v.dictionary_enabled == cfg.dictionary_enabled
            &&& v.column_dictionary@ == cfg.column_dictionary@
            &&& v.column_encodings@.len() == cfg.column_encodings@.len()
            &&& forall|i: int|
                0 <= i < v.column_encodings@.len() ==> (#[trigger] v.column_encodings@[i]).0@
                    == cfg.column_encodings@[i].0@ && Option::Some(v.column_encodings@[i].1)
                    == encoding_of(cfg.column_encodings@[i].1@)
            &&& match cfg.compression {
                Option::Some(name) => Option::Some(v.compression->Some_0) == compression_of(
                    name@,
                    cfg.compression_level,
                ) && v.compression is Some && codec_level_ok(v.compression->Some_0),
                Option::None => v.compression is None,
            }
        },
        r is Err ==> r matches Err(PQRSError::InvalidConfigurationValue(_)),
{
    let mut encodings: Vec<(String, ColumnEncoding)> = Vec::new();
    let mut i: usize = 0;
    while i < cfg.column_encodings.len()
        invariant
            0 <= i <= cfg.column_encodings@.len(),
            encodings@.len() == i,
            forall|j: int|
                0 <= j < i ==> (#[trigger] encodings@[j]).0@ == cfg.column_encodings@[j].0@
                    && Option::Some(encodings@[j].1) == encoding_of(cfg.column_encodings@[j].1@),
        decreases cfg.column_encodings@.len() - i,
    {
        let pair = &cfg.column_encodings[i];
        let enc = match parse_encoding(pair.1.as_str()) {
            Ok(e) => e,
            Err(e) => {
                proof {
                    assert(encoding_of(cfg.column_encodings@[i as int].1@) is None);
                }
                return Err(e);
            },
        };
        encodings.push((pair.0.clone(), enc));
        i = i + 1;
    }
    let compression = match &cfg.compression {
        Some(name) => {
            match parse_compression(name.as_str(), cfg.compression_level) {
                Ok(c) => Some(c),
                Err(e) => {
                    return Err(e);
                },
            }
        },
        None => {
            if cfg.compression_level.is_some() {
                return Err(
                    PQRSError::InvalidConfigurationValue(
                        "compression level given without a compression name".to_owned(),
                    ),
                );
            }
            None
        },
    };
    let mut dictionary: Vec<(String, bool)> = Vec::new();
    let mut k: usize = 0;
    while k < cfg.column_dictionary.len()
        invariant
            0 <= k <= cfg.column_dictionary@.len(),
            dictionary@ =~= cfg.column_dictionary@.take(k as int),
        decreases cfg.column_dictionary@.len() - k,
    {
        let pair = &cfg.column_dictionary[k];
        dictionary.push((pair.0.clone(), pair.1));
        proof {
            assert(dictionary@ =~= cfg.column_dictionary@.take(k as int + 1));
        }
        k = k + 1;
    }
    proof {
        assert(dictionary@ =~= cfg.column_dictionary@);
        assert forall|j: int| 0 <= j < cfg.column_encodings@.len() implies encoding_of(
            (#[trigger] cfg.column_encodings@[j]).1@,
        ) is Some by {
            assert(Option::Some(encodings@[j].1) == encoding_of(cfg.column_encodings@[j].1@));
        }
    }
    Ok(
        ValidatedMergeConfig {
            dictionary_enabled: cfg.dictionary_enabled,
            column_dictionary: dictionary,
            column_encodings: encodings,
            compression,
        },
    )
}

/// The pre-flight checks of the merge engine, in the order the engine makes
/// them: the output path must not exist yet, so that nothing is overwritten;
/// every input path must exist, so that no input is opened needlessly; and
/// the writer configuration must validate, so that no output is created for
/// a merge that cannot be written. The first failing check decides the
/// error, and nothing is opened or created by this function itself.
pub fn merge_begin(
    output_exists: bool,
    inputs_exist: &Vec<bool>,
    inputs: &Vec<String>,
    output: &str,
    config: &Option<MergeWriteConfig>,
) -> (r: Result<Option<ValidatedMergeConfig>, PQRSError>)
    requires
        inputs_exist@.len() == inputs@.len(),
    ensures
        output_exists ==> (r matches Err(PQRSError::FileExists(p)) && p@ == output@),
        r is Ok <==> !output_exists && (forall|i: int|
            0 <= i < inputs_exist@.len() ==> inputs_exist@[i]) && (match *config {
            Option::Some(c) => config_valid(c),
            Option::None => true,
        }),
        !output_exists && !(forall|i: int| 0 <= i < inputs_exist@.len() ==> inputs_exist@[i])
            ==> (r matches Err(PQRSError::FileNotFound(p)) && exists|j: int|
            0 <= j < inputs_exist@.len() && !inputs_exist@[j] && p@ == inputs@[j]@ && (forall|i: int|
                0 <= i < j ==> inputs_exist@[i])),
        !output_exists && (forall|i: int| 0 <= i < inputs_exist@.len() ==> inputs_exist@[i]) && (
        *config matches Option::Some(c) && !config_valid(c)) ==> r matches Err(
            PQRSError::InvalidConfigurationValue(_),
        ),
        r is Ok ==> (match *config {
            Option::Some(c) => r->Ok_0 matches Some(v) && {
                &&& v.dictionary_enabled == c.dictionary_enabled
                &&& v.column_dictionary@ == c.column_dictionary@
                &&& v.column_encodings@.len() == c.column_encodings@.len()
                &&& (v.compression matches Option::Some(codec) ==> codec_level_ok(codec))
            },
            Option::None => r->Ok_0 is None,
        }),
        r is Err ==> r matches Err(PQRSError::FileExists(_)) || r matches Err(
            PQRSError::FileNotFound(_),
        ) || r matches Err(PQRSError::InvalidConfigurationValue(_)),
{
    if output_exists {
        return Err(PQRSError::FileExists(output.to_owned()));
    }
    let mut i: usize = 0;
    while i < inputs_exist.len()
        invariant
            !output_exists,
            inputs_exist@.len() == inputs@.len(),
            0 <= i <= inputs_exist@.len(),
            forall|j: int| 0 <= j < i ==> inputs_exist@[j],
        decreases inputs_exist@.len() - i,
    {
        if !inputs_exist[i] {
            return Err(PQRSError::FileNotFound(inputs[i].clone()));
        }
        i = i + 1;
    }
    match config {
        Some(cfg) => {
            match validate_merge_config(cfg) {
                Ok(v) => Ok(Some(v)),
                Err(e) => Err(e),
            }
        },
        None => Ok(None),
    }
}

/// Applies validated writer tuning to a fresh set of writer properties, in
/// the order the writer expects it: the dictionary default first, then the
/// per-column dictionary and encoding overrides in the order given, then the
/// compression codec. The returned properties carry exactly the validated
/// configuration's settings; this happens before any output file exists.
pub fn build_writer_props(v: &ValidatedMergeConfig) -> (r: gateway::PropsHolder)
    ensures
        gateway::props_settings(r).dictionary_enabled == v.dictionary_enabled,
        gateway::props_settings(r).column_dictionary == column_dictionary_view(
            v.column_dictionary@,
        ),
        gateway::props_settings(r).column_encodings == column_encodings_view(v.column_encodings@),
        (v.compression matches Option::Some(c) && codec_level_ok(c)) ==> gateway::props_settings(
            r,
        ).compression == v.compression,
        v.compression is None ==> gateway::props_settings(r).compression is None,
{
    let mut b = gateway::props_builder_new();
    if let Some(enabled) = v.dictionary_enabled {
        b = gateway::props_set_dictionary(b, enabled);
    }
    let mut i: usize = 0;
    while i < v.column_dictionary.len()
        invariant
            0 <= i <= v.column_dictionary@.len(),
            gateway::props_builder_settings(b).dictionary_enabled == v.dictionary_enabled,
            gateway::props_builder_settings(b).column_dictionary =~= column_dictionary_view(
                v.column_dictionary@.take(i as int),
            ),
            gateway::props_builder_settings(b).column_encodings =~= Seq::empty(),
            gateway::props_builder_settings(b).compression is None,
        decreases v.column_dictionary@.len() - i,
    {
        let pair = &v.column_dictionary[i];
        b = gateway::props_set_column_dictionary(b, pair.0.as_str(), pair.1);
        proof {
            assert(column_dictionary_view(v.column_dictionary@.take(i as int + 1))
                =~= column_dictionary_view(v.column_dictionary@.take(i as int)).push(
                (v.column_dictionary@[i as int].0@, v.column_dictionary@[i as int].1),
            ));
        }
        i = i + 1;
    }
    proof {
        assert(v.column_dictionary@.take(v.column_dictionary@.len() as int)
            =~= v.column_dictionary@);
    }
    let mut k: usize = 0;
    while k < v.column_encodings.len()
        invariant
            0 <= k <= v.column_encodings@.len(),
            gateway::props_builder_settings(b).dictionary_enabled == v.dictionary_enabled,
            gateway::props_builder_settings(b).column_dictionary =~= column_dictionary_view(
                v.column_dictionary@,
            ),
            gateway::props_builder_settings(b).column_encodings =~= column_encodings_view(
                v.column_encodings@.take(k as int),
            ),
            gateway::props_builder_settings(b).compression is None,
        decreases v.column_encodings@.len() - k,
    {
        let pair = &v.column_encodings[k];
        b = gateway::props_set_column_encoding(b, pair.0.as_str(), pair.1);
        proof {
            assert(column_encodings_view(v.column_encodings@.take(k as int + 1))
                =~= column_encodings_view(v.column_encodings@.take(k as int)).push(
                (v.column_encodings@[k as int].0@, v.column_encodings@[k as int].1),
            ));
        }
        k = k + 1;
    }
    proof {
        assert(v.column_encodings@.take(v.column_encodings@.len() as int)
            =~= v.column_encodings@);
    }
    if let Some(codec) = v.compression {
        b = gateway::props_set_compression(b, codec);
    }
    gateway::props_build(b)
}

/// Streams every remaining batch of one input to the output writer, in
/// physical order, one batch at a time: afterwards the writer has been
/// handed exactly the input's batches, appended in order to whatever it had
/// before, and the input is exhausted.
pub fn merge_write_input(source: &mut gateway::BatchSource, writer: &mut gateway::BatchWriter) -> (r:
    Result<(), PQRSError>)
    ensures
        r is Ok ==> gateway::writer_rows(*final(writer)) =~= gateway::writer_rows(*old(writer))
            + gateway::batch_sizes_of(*old(source)),
        r is Ok ==> gateway::batch_sizes_of(*final(source)).len() == 0,
        r is Err ==> r matches Err(PQRSError::ParquetError(_)) || r matches Err(
            PQRSError::ArrowReadWriteError(_),
        ),
{
    let ghost sizes0 = gateway::batch_sizes_of(*source);
    let ghost written0 = gateway::writer_rows(*writer);
    let ghost mut copied: Seq<nat> = Seq::empty();
    loop
        invariant_except_break
            copied.len() <= sizes0.len(),
            gateway::batch_sizes_of(*source) == sizes0.skip(copied.len() as int),
            copied =~= sizes0.take(copied.len() as int),
            gateway::writer_rows(*writer) =~= written0 + copied,
        ensures
            gateway::batch_sizes_of(*source).len() == 0,
            gateway::writer_rows(*writer) =~= written0 + sizes0,
        decreases gateway::batch_sizes_of(*source).len(),
    {
        let next = match gateway::next_batch(source) {
            Ok(n) => n,
            Err(e) => {
                return Err(e);
            },
        };
        let b = match next {
            None => {
                proof {
                    assert(copied =~= sizes0);
                }
                break ;
            },
            Some(b) => b,
        };
        if let Err(e) = gateway::write_batch_out(writer, &b) {
            return Err(e);
        }
        proof {
            let n = copied.len() as int;
            assert(sizes0.skip(n).len() > 0);
            assert(gateway::batch_rows_of(b) == sizes0.skip(n)[0]);
            assert(sizes0.skip(n)[0] == sizes0[n]);
            copied = copied.push(sizes0[n]);
            assert(copied =~= sizes0.take(n + 1));
            assert(sizes0.skip(n).skip(1) =~= sizes0.skip(n + 1));
            assert(gateway::writer_rows(*writer) =~= written0 + copied);
        }
    }
    Ok(())
}

/// Merging appends row counts: the rows a writer receives from two inputs in
/// sequence number the first input's rows plus the second's, with the first
/// input's batches all standing before the second's.
pub proof fn lemma_merge_row_count(a: Seq<nat>, b: Seq<nat>)
    ensures
        sum_sizes(a + b) == sum_sizes(a) + sum_sizes(b),
    decreases a.len(),
{
    if a.len() == 0 {
        assert(a + b =~= b);
    } else {
        assert((a + b).skip(1) =~= a.skip(1) + b);
        assert((a + b)[0] == a[0]);
        lemma_merge_row_count(a.skip(1), b);
        assert(sum_sizes(a + b) == (a + b)[0] + sum_sizes((a + b).skip(1)));
    }
}

} // verus!
