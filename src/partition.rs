use vstd::prelude::*;

verus! {

/// The text read from a column, or empty text when the column could not be read.
pub open spec fn text_or_empty(o: Option<String>) -> Seq<char> {
    match o {
        Some(s) => s@,
        None => Seq::empty(),
    }
}

/// The column's text, or empty text when it could not be read.
pub fn or_empty(o: Option<String>) -> (r: String)
    ensures
        r@ == text_or_empty(o),
{
    match o {
        Some(s) => s,
        None => String::new(),
    }
}

/// A row of the legacy `settings` table; a column that could not be read is `None`.
#[derive(Clone, Debug)]
pub struct LegacySettingsRow {
    pub id: Option<String>,
    pub provider: Option<String>,
    pub model: Option<String>,
    pub whisper_model: Option<String>,
    pub groq_api_key: Option<String>,
    pub openai_api_key: Option<String>,
    pub anthropic_api_key: Option<String>,
    pub ollama_api_key: Option<String>,
    pub open_router_api_key: Option<String>,
    pub ollama_endpoint: Option<String>,
    pub custom_openai_config: Option<String>,
    pub gemini_api_key: Option<String>,
}

/// A row of the global `settings` table.
#[derive(Clone, Debug)]
pub struct SettingsRow {
    pub id: String,
    pub provider: String,
    pub model: String,
    pub whisper_model: String,
    pub groq_api_key: Option<String>,
    pub openai_api_key: Option<String>,
    pub anthropic_api_key: Option<String>,
    pub ollama_api_key: Option<String>,
    pub open_router_api_key: Option<String>,
    pub ollama_endpoint: Option<String>,
    pub custom_openai_config: Option<String>,
    pub gemini_api_key: Option<String>,
}

/// `r` is the global row for the legacy row `l`: required text columns that could
/// not be read are empty, optional columns are kept as they were read.
pub open spec fn settings_row_of(r: SettingsRow, l: LegacySettingsRow) -> bool {
    &&& r.id@ == text_or_empty(l.id)
    &&& r.provider@ == text_or_empty(l.provider)
    &&& r.model@ == text_or_empty(l.model)
    &&& r.whisper_model@ == text_or_empty(l.whisper_model)
    &&& r.groq_api_key == l.groq_api_key
    &&& r.openai_api_key == l.openai_api_key
    &&& r.anthropic_api_key == l.anthropic_api_key
    &&& r.ollama_api_key == l.ollama_api_key
    &&& r.open_router_api_key == l.open_router_api_key
    &&& r.ollama_endpoint == l.ollama_endpoint
    &&& r.custom_openai_config == l.custom_openai_config
    &&& r.gemini_api_key == l.gemini_api_key
}

/// The global settings row for a legacy row.
pub fn settings_row(l: LegacySettingsRow) -> (r: SettingsRow)
    ensures
        settings_row_of(r, l),
{
    SettingsRow {
        id: or_empty(l.id),
        provider: or_empty(l.provider),
        model: or_empty(l.model),
        whisper_model: or_empty(l.whisper_model),
        groq_api_key: l.groq_api_key,
        openai_api_key: l.openai_api_key,
        anthropic_api_key: l.anthropic_api_key,
        ollama_api_key: l.ollama_api_key,
        open_router_api_key: l.open_router_api_key,
        ollama_endpoint: l.ollama_endpoint,
        custom_openai_config: l.custom_openai_config,
        gemini_api_key: l.gemini_api_key,
    }
}

/// A row of the legacy `transcript_settings` table.
#[derive(Clone, Debug)]
pub struct LegacyTranscriptRow {
    pub id: Option<String>,
    pub provider: Option<String>,
    pub model: Option<String>,
    pub whisper_api_key: Option<String>,
    pub deepgram_api_key: Option<String>,
    pub eleven_labs_api_key: Option<String>,
    pub groq_api_key: Option<String>,
    pub openai_api_key: Option<String>,
}

/// A row of the global `transcript_settings` table.
#[derive(Clone, Debug)]
pub struct TranscriptRow {
    pub id: String,
    pub provider: String,
    pub model: String,
    pub whisper_api_key: Option<String>,
    pub deepgram_api_key: Option<String>,
    pub eleven_labs_api_key: Option<String>,
    pub groq_api_key: Option<String>,
    pub openai_api_key: Option<String>,
}

/// `r` is the global row for the legacy transcript row `l`.
pub open spec fn transcript_row_of(r: TranscriptRow, l: LegacyTranscriptRow) -> bool {
    &&& r.id@ == text_or_empty(l.id)
    &&& r.provider@ == text_or_empty(l.provider)
    &&& r.model@ == text_or_empty(l.model)
    &&& r.whisper_api_key == l.whisper_api_key
    &&& r.deepgram_api_key == l.deepgram_api_key
    &&& r.eleven_labs_api_key == l.eleven_labs_api_key
    &&& r.groq_api_key == l.groq_api_key
    &&& r.openai_api_key == l.openai_api_key
}

/// The global transcript-settings row for a legacy row.
pub fn transcript_row(l: LegacyTranscriptRow) -> (r: TranscriptRow)
    ensures
        transcript_row_of(r, l),
{
    TranscriptRow {
        id: or_empty(l.id),
        provider: or_empty(l.provider),
        model: or_empty(l.model),
        whisper_api_key: l.whisper_api_key,
        deepgram_api_key: l.deepgram_api_key,
        eleven_labs_api_key: l.eleven_labs_api_key,
        groq_api_key: l.groq_api_key,
        openai_api_key: l.openai_api_key,
    }
}

/// Grace period, in seconds, of a licence row that does not record one.
pub const DEFAULT_GRACE_PERIOD: i32 = 604800;

/// A row of the legacy `licensing` table.
#[derive(Clone, Debug)]
pub struct LegacyLicenseRow {
    pub license_key: Option<String>,
    pub encrypted_key: Option<String>,
    pub signature_hash: Option<String>,
    pub activation_date: Option<String>,
    pub expiry_date: Option<String>,
    pub soft_expiry_date: Option<String>,
    pub max_activation_time: Option<String>,
    pub duration: Option<i64>,
    pub generated_on: Option<String>,
    pub is_soft_expired: Option<i32>,
    pub grace_period: Option<i32>,
}

/// A row of the global `licensing` table.
#[derive(Clone, Debug)]
pub struct LicenseRow {
    pub license_key: String,
    pub encrypted_key: String,
    pub signature_hash: String,
    pub activation_date: String,
    pub expiry_date: String,
    pub soft_expiry_date: String,
    pub max_activation_time: String,
    pub duration: i64,
    pub generated_on: String,
    pub is_soft_expired: i32,
    pub grace_period: i32,
}

/// `r` is the global row for the legacy licence row `l`: missing text is empty,
/// missing numbers are zero, and a missing grace period is the default one.
pub open spec fn license_row_of(r: LicenseRow, l: LegacyLicenseRow) -> bool {
    &&& r.license_key@ == text_or_empty(l.license_key)
    &&& r.encrypted_key@ == text_or_empty(l.encrypted_key)
    &&& r.signature_hash@ == text_or_empty(l.signature_hash)
    &&& r.activation_date@ == text_or_empty(l.activation_date)
    &&& r.expiry_date@ == text_or_empty(l.expiry_date)
    &&& r.soft_expiry_date@ == text_or_empty(l.soft_expiry_date)
    &&& r.max_activation_time@ == text_or_empty(l.max_activation_time)
    &&& r.duration == (match l.duration { Some(d) => d, None => 0i64 })
    &&& r.generated_on@ == text_or_empty(l.generated_on)
    &&& r.is_soft_expired == (match l.is_soft_expired { Some(v) => v, None => 0i32 })
    &&& r.grace_period == (match l.grace_period { Some(v) => v, None => DEFAULT_GRACE_PERIOD })
}

/// The global licensing row for a legacy row.
pub fn license_row(l: LegacyLicenseRow) -> (r: LicenseRow)
    ensures
        license_row_of(r, l),
{
    LicenseRow {
        license_key: or_empty(l.license_key),
        encrypted_key: or_empty(l.encrypted_key),
        signature_hash: or_empty(l.signature_hash),
        activation_date: or_empty(l.activation_date),
        expiry_date: or_empty(l.expiry_date),
        soft_expiry_date: or_empty(l.soft_expiry_date),
        max_activation_time: or_empty(l.max_activation_time),
        duration: match l.duration {
            Some(d) => d,
            None => 0,
        },
        generated_on: or_empty(l.generated_on),
        is_soft_expired: match l.is_soft_expired {
            Some(v) => v,
            None => 0,
        },
        grace_period: match l.grace_period {
            Some(v) => v,
            None => DEFAULT_GRACE_PERIOD,
        },
    }
}

/// The global settings rows for the legacy rows, one for one and in order.
pub fn settings_rows(legacy: Vec<LegacySettingsRow>) -> (r: Vec<SettingsRow>)
    ensures
        r@.len() == legacy@.len(),
        forall|i: int| 0 <= i < legacy@.len() ==> settings_row_of(#[trigger] r@[i], legacy@[i]),
{
    let mut out: Vec<SettingsRow> = Vec::new();
    let mut rest = legacy;
    let ghost orig = rest@;
    while rest.len() > 0
        invariant
            out@.len() <= orig.len(),
            rest@ == orig.subrange(out@.len() as int, orig.len() as int),
            forall|i: int| 0 <= i < out@.len() ==> settings_row_of(#[trigger] out@[i], orig[i]),
        decreases rest@.len(),
    {
        let l = rest.remove(0);
        out.push(settings_row(l));
    }
    out
}


/// The global transcript-settings rows for the legacy rows, one for one and in order.
pub fn transcript_rows(legacy: Vec<LegacyTranscriptRow>) -> (r: Vec<TranscriptRow>)
    ensures
        r@.len() == legacy@.len(),
        forall|i: int| 0 <= i < legacy@.len() ==> transcript_row_of(#[trigger] r@[i], legacy@[i]),
{
    let mut out: Vec<TranscriptRow> = Vec::new();
    let mut rest = legacy;
    let ghost orig = rest@;
    while rest.len() > 0
        invariant
            out@.len() <= orig.len(),
            rest@ == orig.subrange(out@.len() as int, orig.len() as int),
            forall|i: int| 0 <= i < out@.len() ==> transcript_row_of(#[trigger] out@[i], orig[i]),
        decreases rest@.len(),
    {
        let l = rest.remove(0);
        out.push(transcript_row(l));
    }
    out
}


/// The global licensing rows for the legacy rows, one for one and in order.
pub fn license_rows(legacy: Vec<LegacyLicenseRow>) -> (r: Vec<LicenseRow>)
    ensures
        r@.len() == legacy@.len(),
        forall|i: int| 0 <= i < legacy@.len() ==> license_row_of(#[trigger] r@[i], legacy@[i]),
{
    let mut out: Vec<LicenseRow> = Vec::new();
    let mut rest = legacy;
    let ghost orig = rest@;
    while rest.len() > 0
        invariant
            out@.len() <= orig.len(),
            rest@ == orig.subrange(out@.len() as int, orig.len() as int),
            forall|i: int| 0 <= i < out@.len() ==> license_row_of(#[trigger] out@[i], orig[i]),
        decreases rest@.len(),
    {
        let l = rest.remove(0);
        out.push(license_row(l));
    }
    out
}


/// The table, keyed by natural id, after inserting each row in turn with
/// insert-or-replace semantics.
pub open spec fn upsert_all<R>(
    t: Map<Seq<char>, R>,
    rows: Seq<R>,
    key: spec_fn(R) -> Seq<char>,
) -> Map<Seq<char>, R>
    decreases rows.len(),
{
    if rows.len() == 0 {
        t
    } else {
        upsert_all(t.insert(key(rows[0]), rows[0]), rows.drop_first(), key)
    }
}

proof fn lemma_upsert_keeps<R>(
    t: Map<Seq<char>, R>,
    rows: Seq<R>,
    key: spec_fn(R) -> Seq<char>,
    k: Seq<char>,
)
    requires
        t.dom().contains(k),
    ensures
        upsert_all(t, rows, key).dom().contains(k),
        (forall|j: int| 0 <= j < rows.len() ==> key(#[trigger] rows[j]) != k) ==> upsert_all(
            t,
            rows,
            key,
        )[k] == t[k],
    decreases rows.len(),
{
    if rows.len() > 0 {
        let t2 = t.insert(key(rows[0]), rows[0]);
        lemma_upsert_keeps(t2, rows.drop_first(), key, k);
        if forall|j: int| 0 <= j < rows.len() ==> key(#[trigger] rows[j]) != k {
            assert forall|j: int| 0 <= j < rows.drop_first().len() implies key(
                #[trigger] rows.drop_first()[j],
            ) != k by {
                assert(rows.drop_first()[j] == rows[j + 1]);
            }
            assert(key(rows[0]) != k);
        }
    }
}

proof fn lemma_upsert_at<R>(t: Map<Seq<char>, R>, rows: Seq<R>, key: spec_fn(R) -> Seq<char>, i: int)
    requires
        0 <= i < rows.len(),
    ensures
        upsert_all(t, rows, key).dom().contains(key(rows[i])),
        (forall|j: int| i < j < rows.len() ==> key(#[trigger] rows[j]) != key(rows[i])) ==> upsert_all(
            t,
            rows,
            key,
        )[key(rows[i])] == rows[i],
    decreases rows.len(),
{
    let t2 = t.insert(key(rows[0]), rows[0]);
    let rest = rows.drop_first();
    if i == 0 {
        lemma_upsert_keeps(t2, rest, key, key(rows[0]));
        if forall|j: int| 0 < j < rows.len() ==> key(#[trigger] rows[j]) != key(rows[0]) {
            assert forall|j: int| 0 <= j < rest.len() implies key(#[trigger] rest[j]) != key(rows[0]) by {
                assert(rest[j] == rows[j + 1]);
            }
        }
    } else {
        lemma_upsert_at(t2, rest, key, i - 1);
        assert(rest[i - 1] == rows[i]);
        if forall|j: int| i < j < rows.len() ==> key(#[trigger] rows[j]) != key(rows[i]) {
            assert forall|j: int| i - 1 < j < rest.len() implies key(#[trigger] rest[j]) != key(rest[i - 1]) by {
                assert(rest[j] == rows[j + 1]);
            }
        }
    }
}

/// Every inserted row's key is present afterwards, and a row that no later row
/// replaces is stored as it was inserted.
pub proof fn lemma_upsert_all_rows<R>(t: Map<Seq<char>, R>, rows: Seq<R>, key: spec_fn(R) -> Seq<char>)
    ensures
        forall|i: int|
            0 <= i < rows.len() ==> upsert_all(t, rows, key).dom().contains(key(#[trigger] rows[i])),
        forall|i: int|
            0 <= i < rows.len() && (forall|j: int| i < j < rows.len() ==> key(#[trigger] rows[j]) != key(rows[i]))
                ==> upsert_all(t, rows, key)[key(#[trigger] rows[i])] == rows[i],
{
    assert forall|i: int| 0 <= i < rows.len() implies upsert_all(t, rows, key).dom().contains(
        key(#[trigger] rows[i]),
    ) by {
        lemma_upsert_at(t, rows, key, i);
    }
    assert forall|i: int|
        0 <= i < rows.len() && (forall|j: int| i < j < rows.len() ==> key(#[trigger] rows[j]) != key(rows[i]))
        implies upsert_all(t, rows, key)[key(#[trigger] rows[i])] == rows[i] by {
        lemma_upsert_at(t, rows, key, i);
    }
}

/// Natural key of a global settings row.
pub open spec fn settings_key(r: SettingsRow) -> Seq<char> {
    r.id@
}

/// Natural key of a global transcript-settings row.
pub open spec fn transcript_key(r: TranscriptRow) -> Seq<char> {
    r.id@
}

/// Migrating the settings and transcript-settings tables loses no row: after the
/// rows that `settings_rows` and `transcript_rows` give are inserted, with
/// insert-or-replace, into any global tables, every legacy row has a row with the
/// same id there, an id that could not be read counting as empty text; and a legacy
/// row that no later row of its table shares an id with is stored with its columns,
/// unreadable ones replaced by their defaults.
pub proof fn lemma_partition_keeps_rows(
    settings_table: Map<Seq<char>, SettingsRow>,
    legacy_settings: Seq<LegacySettingsRow>,
    settings: Seq<SettingsRow>,
    transcript_table: Map<Seq<char>, TranscriptRow>,
    legacy_transcripts: Seq<LegacyTranscriptRow>,
    transcripts: Seq<TranscriptRow>,
)
    requires
        settings.len() == legacy_settings.len(),
        forall|i: int|
            0 <= i < legacy_settings.len() ==> settings_row_of(#[trigger] settings[i], legacy_settings[i]),
        transcripts.len() == legacy_transcripts.len(),
        forall|i: int|
            0 <= i < legacy_transcripts.len() ==> transcript_row_of(
                #[trigger] transcripts[i],
                legacy_transcripts[i],
            ),
    ensures
        forall|i: int|
            0 <= i < legacy_settings.len() ==> upsert_all(
                settings_table,
                settings,
                |r: SettingsRow| settings_key(r),
            ).dom().contains(text_or_empty(#[trigger] legacy_settings[i].id)),
        forall|i: int|
            0 <= i < legacy_settings.len() && (forall|j: int|
                i < j < legacy_settings.len() ==> text_or_empty(#[trigger] legacy_settings[j].id)
                    != text_or_empty(legacy_settings[i].id)) ==> settings_row_of(
                upsert_all(settings_table, settings, |r: SettingsRow| settings_key(r))[text_or_empty(
                    #[trigger] legacy_settings[i].id,
                )],
                legacy_settings[i],
            ),
        forall|i: int|
            0 <= i < legacy_transcripts.len() ==> upsert_all(
                transcript_table,
                transcripts,
                |r: TranscriptRow| transcript_key(r),
            ).dom().contains(text_or_empty(#[trigger] legacy_transcripts[i].id)),
        forall|i: int|
            0 <= i < legacy_transcripts.len() && (forall|j: int|
                i < j < legacy_transcripts.len() ==> text_or_empty(#[trigger] legacy_transcripts[j].id)
                    != text_or_empty(legacy_transcripts[i].id)) ==> transcript_row_of(
                upsert_all(transcript_table, transcripts, |r: TranscriptRow| transcript_key(r))[text_or_empty(
                    #[trigger] legacy_transcripts[i].id,
                )],
                legacy_transcripts[i],
            ),
{
    let sk = |r: SettingsRow| settings_key(r);
    let tk = |r: TranscriptRow| transcript_key(r);
    lemma_upsert_all_rows(settings_table, settings, sk);
    lemma_upsert_all_rows(transcript_table, transcripts, tk);
    assert forall|i: int| 0 <= i < legacy_settings.len() implies upsert_all(settings_table, settings, sk).dom().contains(
        text_or_empty(#[trigger] legacy_settings[i].id),
    ) by {
        assert(sk(settings[i]) == text_or_empty(legacy_settings[i].id));
    }
    assert forall|i: int|
        0 <= i < legacy_settings.len() && (forall|j: int|
            i < j < legacy_settings.len() ==> text_or_empty(#[trigger] legacy_settings[j].id)
                != text_or_empty(legacy_settings[i].id)) implies settings_row_of(
        upsert_all(settings_table, settings, sk)[text_or_empty(#[trigger] legacy_settings[i].id)],
        legacy_settings[i],
    ) by {
        assert forall|j: int| i < j < settings.len() implies sk(#[trigger] settings[j]) != sk(settings[i]) by {
            assert(sk(settings[j]) == text_or_empty(legacy_settings[j].id));
        }
        assert(sk(settings[i]) == text_or_empty(legacy_settings[i].id));
    }
    assert forall|i: int| 0 <= i < legacy_transcripts.len() implies upsert_all(transcript_table, transcripts, tk).dom().contains(
        text_or_empty(#[trigger] legacy_transcripts[i].id),
    ) by {
        assert(tk(transcripts[i]) == text_or_empty(legacy_transcripts[i].id));
    }
    assert forall|i: int|
        0 <= i < legacy_transcripts.len() && (forall|j: int|
            i < j < legacy_transcripts.len() ==> text_or_empty(#[trigger] legacy_transcripts[j].id)
                != text_or_empty(legacy_transcripts[i].id)) implies transcript_row_of(
        upsert_all(transcript_table, transcripts, tk)[text_or_empty(#[trigger] legacy_transcripts[i].id)],
        legacy_transcripts[i],
    ) by {
        assert forall|j: int| i < j < transcripts.len() implies tk(#[trigger] transcripts[j]) != tk(transcripts[i]) by {
            assert(tk(transcripts[j]) == text_or_empty(legacy_transcripts[j].id));
        }
        assert(tk(transcripts[i]) == text_or_empty(legacy_transcripts[i].id));
    }
}

} // verus!
