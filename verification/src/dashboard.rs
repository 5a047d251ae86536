//! The dashboard page: its markup, and how it is specialised for a language
//! and for the curve editor.
use vstd::prelude::*;
use crate::settings::ResolvedLanguage;
use crate::text::{chars_of, replace_all, replace_chars, string_from_chars};

verus! {

/// The Korean wording of the page's English labels, applied in this order.
pub open spec fn ko_replacements() -> Seq<(Seq<char>, Seq<char>)> {
    seq![
        (">Fan control<"@, ">팬 제어<"@),
        (">Status<"@, ">상태<"@),
        (">Memory<"@, ">메모리<"@),
        (">Storage<"@, ">저장공간<"@),
        (">Temperature<"@, ">온도<"@),
        (">CPU temperature<"@, ">CPU 온도<"@),
        (">CPU temp<"@, ">CPU 온도<"@),
        (">Fan average<"@, ">팬 평균 RPM<"@),
        (">Fan<"@, ">팬<"@),
        (">Fans<"@, ">팬<"@),
        (">Battery<"@, ">배터리<"@),
        (">Network<"@, ">네트워크<"@),
        (">Top Processes<"@, ">실행 중 프로세스<"@),
        (">MEM<"@, ">메모리<"@),
        (">Ready<"@, ">준비 완료<"@),
        (">Set Up<"@, ">설정<"@),
        (">Settings<"@, ">설정<"@),
        (">General Settings<"@, ">일반 설정<"@),
        (">General<"@, ">일반<"@),
        (">App Preferences<"@, ">앱 설정<"@),
        (">Menu bar<"@, ">메뉴 막대<"@),
        (">Character<"@, ">캐릭터<"@),
        (">Runner<"@, ">러너<"@),
        (">Number<"@, ">숫자<"@),
        (">Cat<"@, ">고양이<"@),
        (">Dog<"@, ">강아지<"@),
        (">Rabbit<"@, ">토끼<"@),
        (">Fox<"@, ">여우<"@),
        (">Both<"@, ">둘 다<"@),
        ("CPU runner · waiting"@, "CPU 러너 · 대기 중"@),
        (">Notifications<"@, ">알림<"@),
        (">CPU temperature warning<"@, ">CPU 온도 경고<"@),
        ("CPU Core Average · separate from the 90°C safety alert"@, "CPU 코어 평균 · 90°C 안전 알림과 별도"@),
        (">Fan control failures<"@, ">팬 제어 실패<"@),
        ("Notify when write or RPM verification fails"@, "쓰기 또는 RPM 검증 실패 시 알림"@),
        (">App updates<"@, ">앱 업데이트<"@),
        ("Notify after the silent launch check finds a release"@, "백그라운드 확인에서 새 버전 발견 시 알림"@),
        (">Load average<"@, ">로드 평균<"@),
        (">Power<"@, ">소비 전력<"@),
        (">Network rate<"@, ">네트워크 속도<"@),
        (">Uptime<"@, ">가동 시간<"@),
        (">Fan Control Health<"@, ">팬 제어 상태<"@),
        (">Technical details<"@, ">기술 정보<"@),
        (">Hardware Availability<"@, ">하드웨어 감지 상태<"@),
        (">Hardware<"@, ">하드웨어<"@),
        (">Daemon<"@, ">데몬<"@),
        (">Control Path<"@, ">제어 경로<"@),
        (">Last Command<"@, ">마지막 명령<"@),
        (">Safety State<"@, ">안전 상태<"@),
        (">Sensor Failures<"@, ">센서 실패<"@),
        (">Fan Write Failures<"@, ">팬 쓰기 실패<"@),
        (">Fan RPM Verification<"@, ">팬 RPM 검증<"@),
        (">Control Retry<"@, ">제어 재시도<"@),
        (">Last Control Error<"@, ">마지막 제어 오류<"@),
        (">Fans Detected<"@, ">감지된 팬<"@),
        (">Admin Approval<"@, ">관리자 승인<"@),
        (">App<"@, ">앱<"@),
        (">Update<"@, ">업데이트<"@),
        (">Current<"@, ">현재<"@),
        (">Latest<"@, ">최신<"@),
        (">Installed app<"@, ">설치된 앱<"@),
        (">Latest signed<"@, ">최신 서명 릴리스<"@),
        (">Core details<"@, ">코어 상세<"@),
        (">Check for Updates<"@, ">업데이트 확인<"@),
        (">Install Update<"@, ">지금 업데이트<"@),
        (">View Release<"@, ">릴리즈 보기<"@),
        ("Check for a signed release, then install it when ready."@, "서명된 새 버전을 확인한 뒤 준비되면 바로 설치합니다."@),
        ("Checking your Mac…"@, "Mac 상태 확인 중…"@),
        ("Waiting for the first sensor sample."@, "첫 센서 값을 기다리는 중입니다."@),
        ("macOS manages fan speed for the current workload."@, "현재 작업에 맞춰 macOS가 팬 속도를 관리합니다."@),
        (">Release Notes<"@, ">릴리즈 노트<"@),
        (">Auto<"@, ">자동<"@),
        (">Silent<"@, ">저소음<"@),
        (">Quiet<"@, ">저소음<"@),
        (">Balanced<"@, ">균형<"@),
        (">Balance<"@, ">균형<"@),
        (">Gaming<"@, ">게임<"@),
        (">Game<"@, ">게임<"@),
        (">Performance<"@, ">성능<"@),
        (">Fast<"@, ">성능<"@),
        (">Max<"@, ">최대<"@),
        ("Open Detailed Window…"@, "상세 창 열기…"@),
        (">Quit PeterFan<"@, ">PeterFan 종료<"@),
        (">Fan Curve<"@, ">팬 커브<"@),
        (">Curve Input<"@, ">커브 입력<"@),
        (">Core Hottest<"@, ">코어 최고<"@),
        (">Safety Hottest<"@, ">안전 최고<"@),
        (">Critical Limit<"@, ">임계값<"@),
        (">Helper<"@, ">도우미<"@),
        (">Recent Fan Actions<"@, ">최근 팬 제어 이력<"@),
        (">Run Diagnostics<"@, ">진단 실행<"@),
        (">No fan actions yet<"@, ">팬 제어 이력 없음<"@),
        (">Detail<"@, ">상세<"@),
        (">Updates<"@, ">업데이트<"@),
        (">System<"@, ">시스템<"@),
        (">Quit<"@, ">종료<"@),
        (">System Metrics<"@, ">시스템 지표<"@),
        (">Live<"@, ">실시간<"@),
        (">Open Detail Window<"@, ">상세 창 열기<"@),
        (">Open Detail Window…<"@, ">상세 창 열기…<"@),
        ("Storage, battery, network, and active processes."@, "저장공간, 배터리, 네트워크와 실행 중인 프로세스를 확인합니다."@),
        ("Reading system sensors…"@, "시스템 센서를 읽는 중…"@),
        ("Reading system metrics…"@, "시스템 지표를 읽는 중…"@),
        ("CPU temperature sensors are unavailable."@, "CPU 온도 센서를 읽을 수 없습니다."@),
        (">No fan sensors<"@, ">팬 센서 없음<"@),
        ("No fan sensors were reported. CPU, memory, and network monitoring remain available; temperature appears only when this system exposes a supported sensor."@, "팬 센서를 찾지 못했습니다. CPU, 메모리와 네트워크는 계속 표시되며, 온도는 이 시스템이 지원 센서를 제공할 때만 표시됩니다."@),
        ("Manage startup and fan-control safety."@, "시작 동작과 팬 제어 안전 상태를 관리합니다."@),
        ("One click checks, verifies, installs, and relaunches PeterFan."@, "한 번에 최신 버전을 확인하고 검증·설치한 뒤 PeterFan을 다시 실행합니다."@),
        (">Startup<"@, ">시작 설정<"@),
        ("Start on login"@, "Run on startup"@),
        ("Run PeterFan automatically on startup."@, "부팅 시 PeterFan을 자동으로 실행합니다."@),
        (">Selected point<"@, ">선택한 점<"@),
        (">Reset<"@, ">초기화<"@),
        (">Remove Point<"@, ">점 삭제<"@),
        (">Save &amp; Apply<"@, ">저장 및 적용<"@),
        ("Drag points to reshape. Click empty space to add a point."@, "점을 드래그해서 모양을 바꾸세요. 빈 공간을 클릭하면 점이 추가됩니다."@),
        ("Tip: run peterfan install-daemon once for persistent control at boot."@, "팁: peterfan install-daemon을 한 번 실행하면 부팅 시에도 설정이 유지됩니다."@),
    ]
}

/// The Korean wording of the page's English labels, in order.
pub fn ko_replacement_table() -> (r: Vec<(&'static str, &'static str)>)
    ensures
        r@.map_values(|p: (&'static str, &'static str)| (p.0@, p.1@)) == ko_replacements(),
{
    let r = vec![
        (">Fan control<", ">팬 제어<"),
        (">Status<", ">상태<"),
        (">Memory<", ">메모리<"),
        (">Storage<", ">저장공간<"),
        (">Temperature<", ">온도<"),
        (">CPU temperature<", ">CPU 온도<"),
        (">CPU temp<", ">CPU 온도<"),
        (">Fan average<", ">팬 평균 RPM<"),
        (">Fan<", ">팬<"),
        (">Fans<", ">팬<"),
        (">Battery<", ">배터리<"),
        (">Network<", ">네트워크<"),
        (">Top Processes<", ">실행 중 프로세스<"),
        (">MEM<", ">메모리<"),
        (">Ready<", ">준비 완료<"),
        (">Set Up<", ">설정<"),
        (">Settings<", ">설정<"),
        (">General Settings<", ">일반 설정<"),
        (">General<", ">일반<"),
        (">App Preferences<", ">앱 설정<"),
        (">Menu bar<", ">메뉴 막대<"),
        (">Character<", ">캐릭터<"),
        (">Runner<", ">러너<"),
        (">Number<", ">숫자<"),
        (">Cat<", ">고양이<"),
        (">Dog<", ">강아지<"),
        (">Rabbit<", ">토끼<"),
        (">Fox<", ">여우<"),
        (">Both<", ">둘 다<"),
        ("CPU runner · waiting", "CPU 러너 · 대기 중"),
        (">Notifications<", ">알림<"),
        (">CPU temperature warning<", ">CPU 온도 경고<"),
        ("CPU Core Average · separate from the 90°C safety alert", "CPU 코어 평균 · 90°C 안전 알림과 별도"),
        (">Fan control failures<", ">팬 제어 실패<"),
        ("Notify when write or RPM verification fails", "쓰기 또는 RPM 검증 실패 시 알림"),
        (">App updates<", ">앱 업데이트<"),
        ("Notify after the silent launch check finds a release", "백그라운드 확인에서 새 버전 발견 시 알림"),
        (">Load average<", ">로드 평균<"),
        (">Power<", ">소비 전력<"),
        (">Network rate<", ">네트워크 속도<"),
        (">Uptime<", ">가동 시간<"),
        (">Fan Control Health<", ">팬 제어 상태<"),
        (">Technical details<", ">기술 정보<"),
        (">Hardware Availability<", ">하드웨어 감지 상태<"),
        (">Hardware<", ">하드웨어<"),
        (">Daemon<", ">데몬<"),
        (">Control Path<", ">제어 경로<"),
        (">Last Command<", ">마지막 명령<"),
        (">Safety State<", ">안전 상태<"),
        (">Sensor Failures<", ">센서 실패<"),
        (">Fan Write Failures<", ">팬 쓰기 실패<"),
        (">Fan RPM Verification<", ">팬 RPM 검증<"),
        (">Control Retry<", ">제어 재시도<"),
        (">Last Control Error<", ">마지막 제어 오류<"),
        (">Fans Detected<", ">감지된 팬<"),
        (">Admin Approval<", ">관리자 승인<"),
        (">App<", ">앱<"),
        (">Update<", ">업데이트<"),
        (">Current<", ">현재<"),
        (">Latest<", ">최신<"),
        (">Installed app<", ">설치된 앱<"),
        (">Latest signed<", ">최신 서명 릴리스<"),
        (">Core details<", ">코어 상세<"),
        (">Check for Updates<", ">업데이트 확인<"),
        (">Install Update<", ">지금 업데이트<"),
        (">View Release<", ">릴리즈 보기<"),
        ("Check for a signed release, then install it when ready.", "서명된 새 버전을 확인한 뒤 준비되면 바로 설치합니다."),
        ("Checking your Mac…", "Mac 상태 확인 중…"),
        ("Waiting for the first sensor sample.", "첫 센서 값을 기다리는 중입니다."),
        ("macOS manages fan speed for the current workload.", "현재 작업에 맞춰 macOS가 팬 속도를 관리합니다."),
        (">Release Notes<", ">릴리즈 노트<"),
        (">Auto<", ">자동<"),
        (">Silent<", ">저소음<"),
        (">Quiet<", ">저소음<"),
        (">Balanced<", ">균형<"),
        (">Balance<", ">균형<"),
        (">Gaming<", ">게임<"),
        (">Game<", ">게임<"),
        (">Performance<", ">성능<"),
        (">Fast<", ">성능<"),
        (">Max<", ">최대<"),
        ("Open Detailed Window…", "상세 창 열기…"),
        (">Quit PeterFan<", ">PeterFan 종료<"),
        (">Fan Curve<", ">팬 커브<"),
        (">Curve Input<", ">커브 입력<"),
        (">Core Hottest<", ">코어 최고<"),
        (">Safety Hottest<", ">안전 최고<"),
        (">Critical Limit<", ">임계값<"),
        (">Helper<", ">도우미<"),
        (">Recent Fan Actions<", ">최근 팬 제어 이력<"),
        (">Run Diagnostics<", ">진단 실행<"),
        (">No fan actions yet<", ">팬 제어 이력 없음<"),
        (">Detail<", ">상세<"),
        (">Updates<", ">업데이트<"),
        (">System<", ">시스템<"),
        (">Quit<", ">종료<"),
        (">System Metrics<", ">시스템 지표<"),
        (">Live<", ">실시간<"),
        (">Open Detail Window<", ">상세 창 열기<"),
        (">Open Detail Window…<", ">상세 창 열기…<"),
        ("Storage, battery, network, and active processes.", "저장공간, 배터리, 네트워크와 실행 중인 프로세스를 확인합니다."),
        ("Reading system sensors…", "시스템 센서를 읽는 중…"),
        ("Reading system metrics…", "시스템 지표를 읽는 중…"),
        ("CPU temperature sensors are unavailable.", "CPU 온도 센서를 읽을 수 없습니다."),
        (">No fan sensors<", ">팬 센서 없음<"),
        ("No fan sensors were reported. CPU, memory, and network monitoring remain available; temperature appears only when this system exposes a supported sensor.", "팬 센서를 찾지 못했습니다. CPU, 메모리와 네트워크는 계속 표시되며, 온도는 이 시스템이 지원 센서를 제공할 때만 표시됩니다."),
        ("Manage startup and fan-control safety.", "시작 동작과 팬 제어 안전 상태를 관리합니다."),
        ("One click checks, verifies, installs, and relaunches PeterFan.", "한 번에 최신 버전을 확인하고 검증·설치한 뒤 PeterFan을 다시 실행합니다."),
        (">Startup<", ">시작 설정<"),
        ("Start on login", "Run on startup"),
        ("Run PeterFan automatically on startup.", "부팅 시 PeterFan을 자동으로 실행합니다."),
        (">Selected point<", ">선택한 점<"),
        (">Reset<", ">초기화<"),
        (">Remove Point<", ">점 삭제<"),
        (">Save &amp; Apply<", ">저장 및 적용<"),
        ("Drag points to reshape. Click empty space to add a point.", "점을 드래그해서 모양을 바꾸세요. 빈 공간을 클릭하면 점이 추가됩니다."),
        ("Tip: run peterfan install-daemon once for persistent control at boot.", "팁: peterfan install-daemon을 한 번 실행하면 부팅 시에도 설정이 유지됩니다."),
    ];
    assert(r@.map_values(|p: (&'static str, &'static str)| (p.0@, p.1@)) =~= ko_replacements());
    r
}

/// `s` after each replacement of `pairs`, applied in order.
pub open spec fn replace_each(s: Seq<char>, pairs: Seq<(Seq<char>, Seq<char>)>) -> Seq<char>
    decreases pairs.len(),
{
    if pairs.len() == 0 {
        s
    } else {
        replace_all(replace_each(s, pairs.drop_last()), pairs.last().0, pairs.last().1)
    }
}

/// The dashboard page in `lang`: the language tag and the curve-editor flag
/// filled in, and in Korean every label translated.
pub open spec fn dashboard_text(lang: ResolvedLanguage, show_curve_editor: bool) -> Seq<char> {
    let tag = match lang {
        ResolvedLanguage::En => "en"@,
        ResolvedLanguage::Ko => "ko"@,
    };
    let flag = if show_curve_editor {
        "1"@
    } else {
        "0"@
    };
    let base = replace_all(
        replace_all(page_text(), "__LANG__"@, tag),
        "__SHOWCURVE__"@,
        flag,
    );
    match lang {
        ResolvedLanguage::En => base,
        ResolvedLanguage::Ko => replace_each(base, ko_replacements()),
    }
}

/// The dashboard page in `lang`.
pub fn dashboard_html(lang: ResolvedLanguage, show_curve_editor: bool) -> (r: String)
    ensures
        r@ == dashboard_text(lang, show_curve_editor),
{
    let page = page_chars();
    let tag = match lang {
        ResolvedLanguage::En => "en",
        ResolvedLanguage::Ko => "ko",
    };
    let flag = if show_curve_editor {
        "1"
    } else {
        "0"
    };
    let tagged = replace_chars(&page, &chars_of("__LANG__"), &chars_of(tag));
    let mut buf = replace_chars(&tagged, &chars_of("__SHOWCURVE__"), &chars_of(flag));
    match lang {
        ResolvedLanguage::En => {},
        ResolvedLanguage::Ko => {
            let table = ko_replacement_table();
            let ghost base = buf@;
            let ghost pairs = ko_replacements();
            let mut i: usize = 0;
            assert(pairs.take(0) =~= Seq::<(Seq<char>, Seq<char>)>::empty());
            while i < table.len()
                invariant
                    i <= table@.len(),
                    pairs == ko_replacements(),
                    table@.map_values(|p: (&'static str, &'static str)| (p.0@, p.1@)) == pairs,
                    buf@ == replace_each(base, pairs.take(i as int)),
                decreases table@.len() - i,
            {
                let (from, to) = table[i];
                assert(pairs[i as int] == (from@, to@));
                buf = replace_chars(&buf, &chars_of(from), &chars_of(to));
                assert(pairs.take(i + 1).drop_last() =~= pairs.take(i as int));
                assert(pairs.take(i + 1).last() == (from@, to@));
                i += 1;
            }
            assert(pairs.take(table@.len() as int) =~= pairs);
        },
    }
    string_from_chars(buf.as_slice())
}

/// The dashboard page in English, with `__LANG__` and `__SHOWCURVE__`
/// placeholders: its parts in order.
pub open spec fn page_text() -> Seq<char> {
    PAGE_01@ + PAGE_02@ + PAGE_03@ + PAGE_04@ + PAGE_05@ + PAGE_06@ + PAGE_07@ + PAGE_08@ + PAGE_09@ + PAGE_10@ + PAGE_11@ + PAGE_12@ + PAGE_13@ + PAGE_14@ + PAGE_15@ + PAGE_16@ + PAGE_17@ + PAGE_18@ + PAGE_19@ + PAGE_20@ + PAGE_21@ + PAGE_22@ + PAGE_23@ + PAGE_24@ + PAGE_25@ + PAGE_26@ + PAGE_27@ + PAGE_28@ + PAGE_29@ + PAGE_30@ + PAGE_31@ + PAGE_32@ + PAGE_33@ + PAGE_34@ + PAGE_35@ + PAGE_36@ + PAGE_37@ + PAGE_38@ + PAGE_39@ + PAGE_40@ + PAGE_41@ + PAGE_42@ + PAGE_43@ + PAGE_44@ + PAGE_45@ + PAGE_46@ + PAGE_47@ + PAGE_48@ + PAGE_49@ + PAGE_50@ + PAGE_51@ + PAGE_52@ + PAGE_53@ + PAGE_54@ + PAGE_55@ + PAGE_56@ + PAGE_57@ + PAGE_58@ + PAGE_59@
}

fn push_str_chars(out: &mut Vec<char>, s: &str)
    ensures
        final(out)@ == old(out)@ + s@,
{
    let v = chars_of(s);
    crate::text::push_all(out, &v);
}

/// The characters of the dashboard page.
pub fn page_chars() -> (r: Vec<char>)
    ensures
        r@ == page_text(),
{
    let mut out = chars_of(PAGE_01);
    push_str_chars(&mut out, PAGE_02);
    push_str_chars(&mut out, PAGE_03);
    push_str_chars(&mut out, PAGE_04);
    push_str_chars(&mut out, PAGE_05);
    push_str_chars(&mut out, PAGE_06);
    push_str_chars(&mut out, PAGE_07);
    push_str_chars(&mut out, PAGE_08);
    push_str_chars(&mut out, PAGE_09);
    push_str_chars(&mut out, PAGE_10);
    push_str_chars(&mut out, PAGE_11);
    push_str_chars(&mut out, PAGE_12);
    push_str_chars(&mut out, PAGE_13);
    push_str_chars(&mut out, PAGE_14);
    push_str_chars(&mut out, PAGE_15);
    push_str_chars(&mut out, PAGE_16);
    push_str_chars(&mut out, PAGE_17);
    push_str_chars(&mut out, PAGE_18);
    push_str_chars(&mut out, PAGE_19);
    push_str_chars(&mut out, PAGE_20);
    push_str_chars(&mut out, PAGE_21);
    push_str_chars(&mut out, PAGE_22);
    push_str_chars(&mut out, PAGE_23);
    push_str_chars(&mut out, PAGE_24);
    push_str_chars(&mut out, PAGE_25);
    push_str_chars(&mut out, PAGE_26);
    push_str_chars(&mut out, PAGE_27);
    push_str_chars(&mut out, PAGE_28);
    push_str_chars(&mut out, PAGE_29);
    push_str_chars(&mut out, PAGE_30);
    push_str_chars(&mut out, PAGE_31);
    push_str_chars(&mut out, PAGE_32);
    push_str_chars(&mut out, PAGE_33);
    push_str_chars(&mut out, PAGE_34);
    push_str_chars(&mut out, PAGE_35);
    push_str_chars(&mut out, PAGE_36);
    push_str_chars(&mut out, PAGE_37);
    push_str_chars(&mut out, PAGE_38);
    push_str_chars(&mut out, PAGE_39);
    push_str_chars(&mut out, PAGE_40);
    push_str_chars(&mut out, PAGE_41);
    push_str_chars(&mut out, PAGE_42);
    push_str_chars(&mut out, PAGE_43);
    push_str_chars(&mut out, PAGE_44);
    push_str_chars(&mut out, PAGE_45);
    push_str_chars(&mut out, PAGE_46);
    push_str_chars(&mut out, PAGE_47);
    push_str_chars(&mut out, PAGE_48);
    push_str_chars(&mut out, PAGE_49);
    push_str_chars(&mut out, PAGE_50);
    push_str_chars(&mut out, PAGE_51);
    push_str_chars(&mut out, PAGE_52);
    push_str_chars(&mut out, PAGE_53);
    push_str_chars(&mut out, PAGE_54);
    push_str_chars(&mut out, PAGE_55);
    push_str_chars(&mut out, PAGE_56);
    push_str_chars(&mut out, PAGE_57);
    push_str_chars(&mut out, PAGE_58);
    push_str_chars(&mut out, PAGE_59);
    out
}

/// Part 1 of the dashboard page.
pub const PAGE_01: &'static str = r##"<!doctype html><html lang="__LANG__"><head><meta charset="utf-8"><meta name="color-scheme" content="light dark">
<style>
:root{--g:#5dd879;--y:#f4c95d;--r:#ff6b63;--accent:#6ea8ff;--accent-soft:rgba(110,168,255,.13);--accent-medium:rgba(110,168,255,.22);--accent-border:rgba(110,168,255,.42);--ok-soft:rgba(93,216,121,.14);--warn-soft:rgba(244,201,93,.16);--danger-soft:rgba(255,107,99,.15);--danger-border:rgba(255,107,99,.36);--bg:#141517;--text:#f3f4f6;--dim:#969da8;--line:rgba(255,255,255,.085);--panel-bg:#181a1d;--surface:#1e2024;--surface-raised:#25282d;--panel-border:rgba(255,255,255,.11);--chip-bg:rgba(255,255,255,.06);--chip-hover:rgba(110,168,255,.16);--track:rgba(255,255,255,.09);--track-hover:rgba(255,255,255,.075);--shadow:0 18px 46px rgba(0,0,0,.42),0 2px 10px rgba(0,0,0,.26);--content-x:18px;--section-y:16px;--panel-pad:18px;}
@media (prefers-color-scheme: light){
:root{--g:#239f52;--y:#b47a00;--r:#d83b35;--accent:#2567bd;--accent-soft:rgba(37,103,189,.11);--accent-medium:rgba(37,103,189,.17);--accent-border:rgba(37,103,189,.32);--ok-soft:rgba(35,159,82,.12);--warn-soft:rgba(180,122,0,.13);--danger-soft:rgba(216,59,53,.11);--danger-border:rgba(216,59,53,.28);--bg:#eef0f3;--text:#202329;--dim:#69717e;--line:rgba(25,31,40,.10);--panel-bg:#f4f5f7;--surface:#fbfbfc;--surface-raised:#fff;--panel-border:rgba(25,31,40,.12);--chip-bg:rgba(25,31,40,.055);--chip-hover:rgba(37,103,189,.12);--track:rgba(25,31,40,.09);--track-hover:rgba(25,31,40,.065);--shadow:0 18px 44px rgba(27,32,40,.15),0 2px 8px rgba(27,32,40,.07);}
}
*{box-sizing:border-box;margin:0;padding:0;}
html,body{background:var(--panel-bg);font-family:-apple-system,system-ui,sans-serif;color:var(--text);-webkit-user-select:none;cursor:default;-webkit-font-smoothing:antialiased;overflow:hidden;}
.panel{background:var(--panel-bg);border:1px solid var(--panel-border);border-radius:10px;overflow:hidden;box-shadow:var(--shadow);max-height:100vh;}
.dashboard-shell{display:grid;grid-template-columns:minmax(0,1fr) 54px;gap:7px;padding:7px;height:100vh;max-height:100vh;}
.main-pane{position:relative;min-width:0;min-height:0;max-height:calc(100vh - 14px);border:1px solid var(--line);border-radius:8px;overflow-y:auto;overflow-x:hidden;scrollbar-gutter:stable;scrollbar-width:none;background:rgba(255,255,255,.012);contain:layout paint;}
.main-pane::-webkit-scrollbar{display:none;}
"##;

/// Part 2 of the dashboard page.
pub const PAGE_02: &'static str = r##".data-loading{position:absolute;z-index:12;top:50px;left:var(--content-x);right:var(--content-x);display:flex;align-items:center;gap:7px;padding:9px 10px;border:1px solid var(--line);border-radius:7px;color:var(--dim);font-size:10.5px;line-height:1.35;box-shadow:0 5px 18px rgba(0,0,0,.16);transition:opacity .12s ease,visibility .12s ease;}
.data-loading-dot{width:7px;height:7px;border-radius:50%;background:var(--accent);box-shadow:0 0 0 3px var(--accent-soft);animation:data-loading-pulse 1.2s ease-in-out infinite;flex:0 0 auto;}
.loading-retry{margin-left:auto;background:var(--chip-bg);border:1px solid var(--accent-border);border-radius:5px;color:var(--accent);font:inherit;font-size:9.5px;font-weight:700;padding:3px 7px;cursor:pointer;}
.loading-retry:hover{background:var(--chip-hover);}
.loading-retry:disabled{opacity:.5;cursor:default;}
@keyframes data-loading-pulse{0%,100%{opacity:.45}50%{opacity:1}}
body.data-ready .data-loading{opacity:0;visibility:hidden;pointer-events:none;}
body.compact .compact-extra{display:none!important;}
body.compact[data-rail-view="system"] .compact-extra{display:grid!important;}
body.compact[data-rail-view="system"] .foot.compact-extra{display:block!important;}
.summary-strip{display:grid;grid-template-columns:repeat(3,minmax(0,1fr));gap:6px;padding:0 var(--content-x) 10px;}
.summary-cell{min-width:0;padding:8px 9px;border:1px solid var(--line);border-radius:7px;background:var(--chip-bg);}
.summary-label{display:block;color:var(--dim);font-size:10px;font-weight:750;letter-spacing:0;white-space:nowrap;overflow:hidden;text-overflow:ellipsis;}
.summary-value{display:block;margin-top:3px;color:var(--text);font-size:13px;font-weight:750;font-variant-numeric:tabular-nums;white-space:nowrap;overflow:hidden;text-overflow:ellipsis;}
.summary-value.g{color:var(--g);}.summary-value.y{color:var(--y);}.summary-value.r{color:var(--r);}.summary-value.info{color:var(--accent);}
.action-rail{display:flex;flex-direction:column;gap:7px;align-self:start;contain:layout paint;}
.rail-btn{height:50px;width:100%;display:flex;align-items:center;justify-content:center;background:transparent;border:1px solid transparent;border-radius:7px;color:var(--dim);font:inherit;cursor:pointer;color-scheme:inherit;}
.rail-btn:hover{background:var(--chip-hover);border-color:var(--accent-border);}
.rail-btn:active{background:var(--accent-medium);}
"##;

/// Part 3 of the dashboard page.
pub const PAGE_03: &'static str = r##".rail-btn svg{width:22px;height:22px;fill:none;stroke:currentColor;stroke-width:1.7;stroke-linecap:round;stroke-linejoin:round;}
.rail-btn span{display:none;}
.rail-btn.active{background:var(--accent-soft);border-color:var(--accent-border);color:var(--accent);}
.setup{position:relative;display:flex;justify-content:space-between;align-items:center;gap:10px;padding:10px var(--content-x);border-bottom:1px solid var(--line);}
.setup-main{display:flex;align-items:center;gap:6px;font-size:11px;font-weight:700;}
.setup-dot{width:7px;height:7px;border-radius:50%;background:var(--dim);box-shadow:0 0 0 3px transparent;flex:0 0 auto;}
.setup-dot.ok{background:var(--g);box-shadow:0 0 0 3px var(--ok-soft);}
.setup-dot.info{background:var(--accent);box-shadow:0 0 0 3px var(--accent-soft);}
.setup-dot.warn{background:var(--y);box-shadow:0 0 0 3px var(--warn-soft);}
.setup-copy{min-width:0;}
.setup-sub{font-size:10px;color:var(--dim);margin-top:1px;font-variant-numeric:tabular-nums;white-space:nowrap;overflow:hidden;text-overflow:ellipsis;max-width:215px;}
.setup-actions{display:flex;gap:4px;flex:0 0 auto;}
.setup-actions button{background:var(--chip-bg);border:1px solid transparent;color:var(--dim);font:inherit;font-size:10px;font-weight:700;padding:4px 7px;border-radius:6px;cursor:pointer;white-space:nowrap;transition:background .15s,color .15s,border-color .15s;}
.setup-actions button:hover{background:var(--chip-hover);color:var(--text);}
.setup-actions button:disabled{opacity:.45;cursor:default;pointer-events:none;}
.setup-actions button.primary{background:var(--accent-medium);border-color:var(--accent-border);color:var(--accent);}
.setup-actions button.active{color:var(--g);border-color:var(--ok-soft);}
.setup-menu-wrap{position:relative;}
.setup-actions .setup-more{width:24px;height:24px;padding:0;font-size:15px;line-height:20px;color:var(--text);}
.setup-menu{display:none;position:absolute;right:0;top:29px;min-width:142px;padding:5px;background:var(--panel-bg);border:1px solid var(--panel-border);border-radius:8px;box-shadow:var(--shadow);z-index:20;}
.setup-menu.show{display:block;}
.setup-actions .setup-menu-item{display:block;width:100%;padding:6px 8px;border-radius:6px;text-align:left;color:var(--text);font-size:10.5px;font-weight:600;background:transparent;}
.setup-actions .setup-menu-item:hover{background:var(--track-hover);}
"##;

/// Part 4 of the dashboard page.
pub const PAGE_04: &'static str = r##".setup-actions .setup-menu-item:focus-visible,.setup-actions .setup-more:focus-visible{outline:2px solid var(--accent);outline-offset:2px;}
.setup-actions .setup-menu-item.active{color:var(--g);border-color:transparent;}
.row{display:grid;grid-template-columns:23px 1fr;gap:13px;padding:var(--section-y) var(--content-x);align-items:center;}
#sec-mem,#sec-temp,#sec-batt,#sec-network,#sec-procs{border-top:1px solid var(--line);}
.ic{width:21px;height:21px;color:var(--dim);}
.ic svg{width:100%;height:100%;fill:none;stroke:currentColor;stroke-width:1.6;stroke-linecap:round;stroke-linejoin:round;}
.content{min-width:0;}
.head{display:flex;justify-content:space-between;align-items:baseline;gap:10px;}
.name{font-size:11.5px;font-weight:650;color:var(--text);}
.val{font-size:15px;font-weight:650;white-space:nowrap;font-variant-numeric:tabular-nums;}
.sub{font-size:10.5px;color:var(--dim);margin-top:2px;line-height:1.45;white-space:nowrap;overflow:hidden;text-overflow:ellipsis;font-variant-numeric:tabular-nums;}
.bar{height:3px;background:var(--track);border-radius:99px;margin-top:7px;overflow:hidden;}
.bar-fill{height:100%;border-radius:99px;width:0;transition:width .35s ease;}
.bar-fill.g{background:var(--g);}.bar-fill.y{background:var(--y);}.bar-fill.r{background:var(--r);}.bar-fill.b{background:var(--accent);}
.cores{display:flex;align-items:flex-end;gap:2.5px;height:22px;margin-top:8px;background:var(--track);border-radius:4px;padding:2px 3px 0;}
.core{flex:1;border-radius:1px 1px 0 0;min-height:2px;transition:height .3s ease;cursor:default;}
.core.g{background:var(--g);}.core.y{background:var(--y);}.core.r{background:var(--r);}
.core-details-head{display:block;width:100%;background:transparent;border:0;font:inherit;font-size:10.5px;font-weight:700;color:var(--dim);margin-top:7px;padding:2px 0;text-align:left;cursor:pointer;}
.core-details-head:hover{color:var(--accent);}
.core-details-list{display:none;margin-top:4px;}
.core-details-list.open{display:block;}
.core-group{padding-top:7px;margin-top:6px;border-top:1px solid var(--line);}
.core-group:first-child{padding-top:2px;margin-top:0;border-top:0;}
.core-group-head{display:flex;align-items:baseline;justify-content:space-between;gap:8px;margin-bottom:5px;font-size:10px;}
.core-group-name{font-weight:750;color:var(--text);}
.core-group-stats{color:var(--dim);font-variant-numeric:tabular-nums;white-space:nowrap;}
.core-detail-grid{display:grid;grid-template-columns:repeat(5,minmax(0,1fr));gap:4px;}
"##;

/// Part 5 of the dashboard page.
pub const PAGE_05: &'static str = r##".core-detail{min-width:0;padding:5px 4px;border-radius:5px;background:var(--chip-bg);text-align:center;}
.core-detail-label{display:block;color:var(--dim);font-size:9px;font-weight:750;}
.core-detail-value{display:block;margin-top:2px;color:var(--text);font-size:10px;font-weight:750;font-variant-numeric:tabular-nums;}
.core-detail-meter{display:block;height:2px;margin-top:4px;border-radius:99px;background:var(--track);overflow:hidden;}
.core-detail-meter>span{display:block;height:100%;border-radius:99px;background:var(--g);}
.core-detail-meter>span.y{background:var(--y);}.core-detail-meter>span.r{background:var(--r);}
.trow{display:flex;justify-content:space-between;align-items:baseline;font-size:10.5px;margin-top:5px;}
.trow .l{color:var(--dim);}
.trow .v{font-weight:600;font-variant-numeric:tabular-nums;}
.v.g{color:var(--g);}.v.y{color:var(--y);}.v.r{color:var(--r);}
.trow.stale .l,.trow.stale .src,.trow.stale .v{color:var(--dim);opacity:.72;}
.val.stale{color:var(--dim);}
.all-temp-head{display:block;width:100%;background:transparent;border:0;border-top:1px solid var(--line);font:inherit;font-size:10.5px;font-weight:700;color:var(--dim);margin-top:9px;padding:8px 0 0;text-align:left;cursor:pointer;}
.all-temp-head:hover{color:var(--accent);}
.all-temp-list .trow{font-size:10.5px;margin-top:5px;gap:10px;}
.all-temp-list .trow .l{white-space:nowrap;overflow:hidden;text-overflow:ellipsis;}
.all-temp-list .trow .src{flex:0 0 auto;color:var(--dim);font-size:10px;font-weight:700;}
.sensor-group-head{margin-top:8px;padding-top:6px;border-top:1px solid var(--line);color:var(--text);font-size:10px;font-weight:750;}
.sensor-group-head:first-child{margin-top:3px;padding-top:0;border-top:0;}
.prow{display:grid;grid-template-columns:1fr auto auto auto;gap:9px;align-items:baseline;font-size:10.5px;margin-top:5px;}
.pkill{opacity:0;background:none;border:0;color:var(--r);font:inherit;font-size:13px;font-weight:700;line-height:1;padding:0 1px;cursor:pointer;transition:opacity .15s;}
.prow:hover .pkill,.pkill:focus-visible{opacity:1;}
.prow .n{white-space:nowrap;overflow:hidden;text-overflow:ellipsis;}
.prow .c{color:var(--accent);font-weight:600;font-variant-numeric:tabular-nums;white-space:nowrap;}
.prow .m{color:var(--dim);font-variant-numeric:tabular-nums;white-space:nowrap;}
.ctl{padding:0 var(--content-x) 13px;border-top:1px solid var(--line);}
.ctl.focus-pulse{background:var(--accent-soft);box-shadow:inset 0 0 0 1px var(--accent-border);}
"##;

/// Part 6 of the dashboard page.
pub const PAGE_06: &'static str = r##".ctl-head{display:flex;justify-content:space-between;align-items:baseline;padding:11px 0 8px;margin:0;border-bottom:1px solid var(--line);}
.ctl-head .name{font-size:11.5px;font-weight:700;color:var(--text);}
.ctl-status{display:block;max-width:58%;overflow:hidden;text-overflow:ellipsis;white-space:nowrap;color:var(--dim);font-size:9.5px;font-weight:650;font-variant-numeric:tabular-nums;}
.fan-inputs{display:grid;grid-template-columns:repeat(3,minmax(0,1fr));gap:6px;padding:10px 0 8px;}
.fan-input{min-width:0;padding:5px 6px;border:1px solid var(--line);border-radius:6px;background:rgba(255,255,255,.018);}
.fan-input span{display:block;font-size:10px;font-weight:700;color:var(--dim);white-space:nowrap;overflow:hidden;text-overflow:ellipsis;}
.fan-input b{display:block;margin-top:2px;font-size:10px;font-weight:750;font-variant-numeric:tabular-nums;white-space:nowrap;}
.profile-strip{display:grid;grid-template-columns:repeat(3,minmax(0,1fr));gap:5px;margin:2px 0 9px;}
.profile-strip button{min-width:0;background:var(--chip-bg);border:1px solid transparent;color:var(--dim);font:inherit;font-size:10px;font-weight:700;padding:7px 3px;border-radius:6px;cursor:pointer;white-space:nowrap;overflow:hidden;text-overflow:ellipsis;transition:background .15s,color .15s,border-color .15s,opacity .15s;}
.profile-strip button:disabled{opacity:.42;cursor:default;pointer-events:none;}
.profile-strip button:hover{background:var(--chip-hover);color:var(--text);}
.profile-strip button.active{background:var(--accent-medium);border-color:var(--accent-border);color:var(--accent);}
.profile-strip.disabled button{opacity:.42;pointer-events:none;}
.profile-strip.pending button{cursor:progress;}
.profile-strip.pending button:not(.active){opacity:.48;}
.profile-strip.pending button.active{box-shadow:inset 0 -2px 0 var(--accent);}
.fan-apply-status{min-height:15px;margin:-2px 0 5px;color:var(--dim);font-size:10.5px;line-height:1.45;font-variant-numeric:tabular-nums;white-space:nowrap;overflow:hidden;text-overflow:ellipsis;}
.fan-apply-status.pending{color:var(--accent);}
.fan-apply-status.ok{color:var(--g);}
.fan-apply-status.error{color:var(--r);}
.fan-cards{display:flex;flex-direction:column;}
.fan-card{padding:9px 0;}
.fan-card+.fan-card{border-top:1px solid var(--line);}
.fan-card-head{display:flex;justify-content:space-between;align-items:baseline;font-size:10.5px;margin-bottom:3px;}
.fan-card-head .fn{font-weight:600;}
"##;

/// Part 7 of the dashboard page.
pub const PAGE_07: &'static str = r##".fan-card-head .fv{font-variant-numeric:tabular-nums;color:var(--dim);}
.fan-bar{height:3px;background:var(--track);border-radius:99px;position:relative;margin-bottom:4px;}
.fan-bar i{display:block;height:100%;background:var(--accent);border-radius:99px;width:0;transition:width .35s;}
.fan-target-marker{display:none;position:absolute;top:-2px;width:2px;height:7px;margin-left:-1px;border-radius:1px;background:var(--text);box-shadow:0 0 0 1px var(--bg);transition:left .2s;}
.fan-card.ramping .fan-card-head .fv{color:var(--accent);}
.fan-card.stale .fan-card-head .fv{color:var(--y);}
.fan-bottom{display:flex;justify-content:space-between;align-items:center;gap:8px;}
.fan-rpm-text{font-size:9.5px;color:var(--dim);font-variant-numeric:tabular-nums;white-space:nowrap;}
.fan-seg{display:flex;gap:4px;flex:0 0 auto;}
.fan-seg button{background:var(--chip-bg);border:1px solid transparent;color:var(--dim);font:inherit;font-size:10px;font-weight:600;padding:4px 8px;border-radius:5px;cursor:pointer;white-space:nowrap;transition:background .15s,color .15s;}
.fan-seg button.active{background:var(--panel-bg);color:var(--text);border-color:rgba(91,157,255,.4);}
.fan-card.pending .fan-seg button{cursor:progress;}
.fan-card.pending .fan-seg button:not(.active){opacity:.48;}
.fan-rpm-row{display:grid;grid-template-columns:auto 1fr auto auto;gap:6px;align-items:center;margin-top:5px;transition:opacity .15s;}
.fan-rpm-row.inactive{opacity:.35;pointer-events:none;}
.fan-rpm-row span{font-size:10px;color:var(--dim);font-variant-numeric:tabular-nums;white-space:nowrap;}
.fan-rpm-row input[type=range]{-webkit-appearance:none;height:3px;border-radius:99px;background:var(--track);outline:none;cursor:pointer;}
.fan-rpm-row input[type=range]::-webkit-slider-thumb{-webkit-appearance:none;width:14px;height:14px;border-radius:50%;background:var(--accent);cursor:pointer;}
.fan-rpm-row input[type=number]{width:44px;background:var(--track);border:1px solid transparent;border-radius:4px;color:var(--text);font:inherit;font-size:9px;font-variant-numeric:tabular-nums;text-align:center;padding:3px 0;-moz-appearance:textfield;}
.fan-rpm-row input[type=number]::-webkit-inner-spin-button,.fan-rpm-row input[type=number]::-webkit-outer-spin-button{-webkit-appearance:none;margin:0;}
.fan-rpm-row input[type=number]:focus{border-color:var(--accent);outline:none;}
"##;

/// Part 8 of the dashboard page.
pub const PAGE_08: &'static str = r##".empty-state{display:flex;flex-direction:column;gap:3px;padding:10px;border:1px dashed var(--line);border-radius:8px;color:var(--dim);font-size:10.5px;line-height:1.45;background:rgba(255,255,255,.018);}
.empty-state-title{font-size:10.5px;color:var(--text);font-weight:700;}
.empty-state-copy{font-size:9.5px;color:var(--dim);line-height:1.5;}
.metric-empty{margin-top:6px;color:var(--dim);font-size:10px;line-height:1.45;}
.ctl-note{font-size:10.5px;color:var(--dim);line-height:1.5;margin-top:6px;}
.note-fix-btn{margin-top:5px;background:var(--accent-medium);border:1px solid var(--accent-border);color:var(--accent);font:inherit;font-size:10px;font-weight:600;padding:5px 10px;border-radius:6px;cursor:pointer;}
.note-fix-btn:hover{background:var(--chip-hover);}
#curve-canvas{width:100%;height:120px;display:block;border-radius:6px;background:var(--track);cursor:crosshair;touch-action:none;margin-top:8px;}
.curve-point-row{display:flex;align-items:center;gap:5px;margin-top:8px;font-size:9px;color:var(--dim);font-variant-numeric:tabular-nums;}
.curve-point-row .cpr-arrow{color:var(--dim);}
.curve-point-row input[type=number]{width:40px;background:var(--track);border:1px solid transparent;border-radius:4px;color:var(--text);font:inherit;font-size:9px;font-variant-numeric:tabular-nums;text-align:center;padding:3px 0;-moz-appearance:textfield;}
.curve-point-row input[type=number]::-webkit-inner-spin-button,.curve-point-row input[type=number]::-webkit-outer-spin-button{-webkit-appearance:none;margin:0;}
.curve-point-row input[type=number]:focus{border-color:var(--accent);outline:none;}
.curve-actions{display:flex;gap:6px;margin-top:8px;}
.curve-actions button{flex:1;background:var(--chip-bg);border:1px solid transparent;color:var(--text);font:inherit;font-size:10px;font-weight:600;padding:6px 4px;border-radius:7px;cursor:pointer;transition:background .15s;}
.curve-actions button:hover{background:var(--chip-hover);}
.curve-actions button.primary{background:var(--accent-medium);border-color:var(--accent-border);color:var(--accent);}
.chart{width:100%;height:32px;display:block;margin-top:9px;border-radius:4px;cursor:crosshair;}
.chart-tip{position:fixed;pointer-events:none;background:rgba(20,20,22,.92);color:#fff;font-size:10.5px;font-weight:600;padding:3px 7px;border-radius:5px;display:none;z-index:999;white-space:nowrap;font-variant-numeric:tabular-nums;}
.chart-stats{font-size:10px;color:var(--dim);text-align:right;margin-top:3px;font-variant-numeric:tabular-nums;}
"##;

/// Part 9 of the dashboard page.
pub const PAGE_09: &'static str = r##".rail-panel{display:none;padding:var(--panel-pad) var(--content-x);border-bottom:1px solid var(--line);}
.panel-title-row{display:flex;align-items:center;justify-content:space-between;gap:10px;margin-bottom:10px;}
.rail-panel .panel-title{font-size:15px;font-weight:700;min-width:0;}
.panel-pill{display:inline-flex;align-items:center;height:20px;padding:0 8px;border-radius:99px;background:var(--chip-bg);color:var(--dim);font-size:9.5px;font-weight:800;white-space:nowrap;font-variant-numeric:tabular-nums;}
.panel-pill.ok{background:var(--ok-soft);color:var(--g);}
.panel-pill.warn{background:var(--warn-soft);color:var(--y);}
.panel-pill.info{background:var(--accent-soft);color:var(--accent);}
.rail-panel .panel-copy{display:none;}
.view-loading{position:absolute;z-index:8;top:48px;left:var(--content-x);right:var(--content-x);display:flex;align-items:center;gap:7px;padding:7px 9px;border:1px solid var(--line);border-radius:6px;color:var(--dim);font-size:10px;line-height:1.35;background:var(--surface-raised);box-shadow:0 5px 16px rgba(0,0,0,.14);}
.view-loading .data-loading-dot{width:6px;height:6px;}
#rail-settings-pill,#rail-more-pill{display:none;}
#rail-more-panel{position:relative;}
.rail-panel .panel-action{min-height:30px;background:var(--accent-medium);border:1px solid var(--accent-border);color:var(--accent);font:inherit;font-size:11px;font-weight:700;padding:6px 10px;border-radius:7px;cursor:pointer;}
.rail-panel .panel-action.secondary{background:var(--chip-bg);border-color:transparent;color:var(--text);}
.rail-panel .panel-action.danger{background:var(--danger-soft);border-color:var(--danger-border);color:var(--r);}
.rail-panel .panel-actions{display:flex;gap:8px;align-items:center;flex-wrap:wrap;}
.release-notes-card{margin-top:10px;padding:9px 10px;border:1px solid var(--line);border-radius:8px;background:rgba(255,255,255,.025);}
.release-notes-title{font-size:11px;font-weight:800;color:var(--text);margin-bottom:5px;}
.release-notes-body{font-size:10.5px;line-height:1.45;color:var(--dim);white-space:pre-wrap;max-height:118px;overflow:hidden;}
.settings-list{display:flex;flex-direction:column;gap:0;}
.settings-item{display:flex;align-items:center;justify-content:space-between;gap:10px;padding:10px 0;border-top:1px solid var(--line);}
.settings-item:first-child{border-top:0;}
.settings-item-title{font-size:11.5px;font-weight:700;color:var(--text);}
.settings-item-copy{display:none;}
"##;

/// Part 10 of the dashboard page.
pub const PAGE_10: &'static str = r##".settings-control-stack{display:flex;flex-direction:column;align-items:flex-end;gap:5px;width:184px;min-width:0;}
.display-segment{display:grid;grid-template-columns:repeat(3,minmax(0,1fr));gap:3px;width:100%;padding:3px;border-radius:8px;background:var(--chip-bg);}
.display-segment button{min-width:0;min-height:27px;padding:4px 5px;border:0;border-radius:6px;background:transparent;color:var(--dim);font:inherit;font-size:9.5px;font-weight:750;cursor:pointer;white-space:nowrap;}
.display-segment button:hover{background:var(--track-hover);color:var(--text);}
.display-segment button.active{background:var(--surface-raised);color:var(--text);box-shadow:0 1px 4px rgba(0,0,0,.15);}
.character-segment{display:grid;grid-template-columns:repeat(4,minmax(0,1fr));gap:3px;width:184px;padding:3px;border-radius:8px;background:var(--chip-bg);}
.character-segment button{min-width:0;min-height:27px;padding:4px 3px;border:0;border-radius:6px;background:transparent;color:var(--dim);font:inherit;font-size:9px;font-weight:750;cursor:pointer;white-space:nowrap;}
.character-segment button:hover{background:var(--track-hover);color:var(--text);}
.character-segment button.active{background:var(--surface-raised);color:var(--text);box-shadow:0 1px 4px rgba(0,0,0,.15);}
.runner-pace{color:var(--dim);font-size:9.5px;font-variant-numeric:tabular-nums;text-align:right;}
.system-facts{display:grid;grid-template-columns:repeat(2,minmax(0,1fr));margin:0 0 10px;border-top:1px solid var(--line);border-bottom:1px solid var(--line);}
.system-fact{min-width:0;padding:8px 10px;}
.system-fact:nth-child(even){border-left:1px solid var(--line);}
.system-fact:nth-child(n+3){border-top:1px solid var(--line);}
.system-fact-label{display:block;color:var(--dim);font-size:9.5px;font-weight:700;}
.system-fact-value{display:block;margin-top:3px;color:var(--text);font-size:11px;font-weight:750;font-variant-numeric:tabular-nums;white-space:nowrap;overflow:hidden;text-overflow:ellipsis;}
.health-card{padding:10px 0;border-top:1px solid var(--line);}
.settings-details{border-top:1px solid var(--line);padding:10px 0;}
.settings-details>summary{display:flex;align-items:center;justify-content:space-between;gap:10px;color:var(--text);font-size:11.5px;font-weight:700;cursor:pointer;list-style:none;}
.settings-details>summary::-webkit-details-marker{display:none;}
.settings-details>summary:after{content:"›";color:var(--dim);font-size:16px;line-height:1;transform:rotate(0deg);transition:transform .12s ease;}
"##;

/// Part 11 of the dashboard page.
pub const PAGE_11: &'static str = r##".settings-details[open]>summary:after{transform:rotate(90deg);}
.settings-details[open]>summary{margin-bottom:10px;}
.settings-details>summary .panel-pill{margin-left:auto;}
.notification-list{display:flex;flex-direction:column;}
.notification-row{display:flex;align-items:center;justify-content:space-between;gap:12px;min-height:38px;padding:7px 0;border-top:1px solid var(--line);}
.notification-row:first-child{border-top:0;}
.notification-title{color:var(--text);font-size:10.5px;font-weight:700;}
.notification-copy{margin-top:2px;color:var(--dim);font-size:9px;line-height:1.35;}
.notification-control{display:flex;align-items:center;justify-content:flex-end;gap:6px;flex:0 0 auto;}
.notification-threshold{width:50px;height:25px;padding:3px 4px;border:1px solid var(--line);border-radius:5px;background:var(--chip-bg);color:var(--text);font:inherit;font-size:10px;font-weight:700;text-align:center;font-variant-numeric:tabular-nums;}
.notification-threshold:disabled{opacity:.45;}
.notification-threshold:focus{outline:2px solid var(--accent);outline-offset:1px;}
.notification-unit{color:var(--dim);font-size:9.5px;}
.notification-toggle{-webkit-appearance:none;appearance:none;position:relative;width:32px;height:18px;border:1px solid var(--line);border-radius:99px;background:var(--track);cursor:pointer;transition:background .15s,border-color .15s;}
.notification-toggle:after{content:"";position:absolute;top:2px;left:2px;width:12px;height:12px;border-radius:50%;background:var(--dim);transition:transform .15s,background .15s;}
.notification-toggle:checked{background:var(--accent-medium);border-color:var(--accent-border);}
.notification-toggle:checked:after{transform:translateX(14px);background:var(--accent);}
.notification-toggle:focus-visible{outline:2px solid var(--accent);outline-offset:2px;}
#fan-action-log-card{margin-top:10px;padding-top:10px;border-top:1px solid var(--line);}
.sensor-loading{padding:8px 0;color:var(--dim);font-size:10.5px;}
.health-head{display:flex;align-items:center;justify-content:space-between;gap:10px;margin-bottom:8px;}
.health-title{font-size:11px;font-weight:800;color:var(--text);}
.health-grid{display:grid;grid-template-columns:1fr;gap:6px;}
.health-row{display:flex;align-items:baseline;justify-content:space-between;gap:12px;font-size:10.5px;border-top:1px solid var(--line);padding-top:6px;}
.health-row:first-child{border-top:0;padding-top:0;}
.health-label{color:var(--dim);font-weight:650;}
"##;

/// Part 12 of the dashboard page.
pub const PAGE_12: &'static str = r##".health-value{font-weight:650;text-align:right;font-variant-numeric:tabular-nums;white-space:normal;overflow-wrap:anywhere;}
.health-value.ok{color:var(--g);}.health-value.warn{color:var(--y);}.health-value.info{color:var(--accent);}
.health-action{background:var(--chip-bg);border:1px solid transparent;color:var(--accent);font:inherit;font-size:10px;font-weight:750;padding:4px 7px;border-radius:6px;cursor:pointer;white-space:nowrap;}
.health-action:disabled{opacity:.5;cursor:default;}
.health-details{margin-top:8px;padding-top:7px;border-top:1px solid var(--line);}
.health-details summary{color:var(--accent);font-size:10px;font-weight:700;cursor:pointer;list-style-position:inside;}
.health-details[open] summary{margin-bottom:7px;}
.action-log{display:flex;flex-direction:column;gap:6px;}
.action-log-empty{font-size:9.5px;color:var(--dim);}
.action-log-row{display:grid;grid-template-columns:48px minmax(0,1fr);gap:7px;padding-top:6px;border-top:1px solid var(--line);font-size:9.5px;}
.action-log-row:first-child{border-top:0;padding-top:0;}
.action-log-time{color:var(--dim);font-variant-numeric:tabular-nums;}
.action-log-main{min-width:0;}
.action-log-action{font-weight:750;color:var(--text);white-space:nowrap;overflow:hidden;text-overflow:ellipsis;}
.action-log-result{margin-top:2px;color:var(--dim);line-height:1.35;overflow-wrap:anywhere;}
.action-log-row.ok .action-log-action{color:var(--g);}.action-log-row.warn .action-log-action{color:var(--y);}
.foot{border-top:1px solid var(--line);padding:3px;}
.quit{display:block;width:100%;background:transparent;border:0;color:var(--dim);font:inherit;font-size:10.5px;padding:8px;border-radius:8px;cursor:pointer;transition:background .15s,color .15s;}
.quit:hover{background:var(--track-hover);color:var(--text);}
.range-tabs{display:flex;gap:4px;padding:12px var(--content-x) 8px;justify-content:flex-end;align-items:center;min-height:40px;}
.view-title{margin-right:auto;font-size:15px;font-weight:700;color:var(--text);}
.sort-tabs{display:flex;gap:4px;}
.range-tab{background:var(--chip-bg);border:1px solid transparent;color:var(--dim);font:inherit;font-size:9.5px;font-weight:600;padding:3px 9px;border-radius:99px;cursor:pointer;transition:background .15s,color .15s;}
.range-tab:hover{background:var(--chip-hover);}
.range-tab.active{background:rgba(91,157,255,.22);color:var(--accent);}
"##;

/// Part 13 of the dashboard page.
pub const PAGE_13: &'static str = r##".health-verdict{display:flex;align-items:center;gap:10px;padding:10px var(--content-x);border-bottom:1px solid var(--line);background:var(--chip-bg);}
.health-verdict-dot{width:9px;height:9px;border-radius:3px;background:var(--dim);box-shadow:0 0 0 4px rgba(150,157,168,.10);flex:0 0 auto;}
.health-verdict-copy{display:flex;align-items:baseline;gap:8px;min-width:0;}
.health-verdict-title{font-size:12px;font-weight:800;white-space:nowrap;}
.health-verdict-detail{min-width:0;color:var(--dim);font-size:10.5px;line-height:1.35;white-space:nowrap;overflow:hidden;text-overflow:ellipsis;font-variant-numeric:tabular-nums;}
.health-verdict.ok .health-verdict-dot{background:var(--g);box-shadow:0 0 0 4px var(--ok-soft);}
.health-verdict.info .health-verdict-dot{background:var(--accent);box-shadow:0 0 0 4px var(--accent-soft);}
.health-verdict.warm .health-verdict-dot{background:var(--y);box-shadow:0 0 0 4px var(--warn-soft);}
.health-verdict.hot .health-verdict-dot{background:var(--r);box-shadow:0 0 0 4px var(--danger-soft);}
.health-verdict.ok .health-verdict-title{color:var(--g);}
.health-verdict.info .health-verdict-title{color:var(--accent);}
.health-verdict.warm .health-verdict-title{color:var(--y);}
.health-verdict.hot .health-verdict-title{color:var(--r);}
/* Product hierarchy: one compact live summary, calm detail bands, and an icon rail. */
.panel{border-radius:12px;background:var(--panel-bg);}
.dashboard-shell{grid-template-columns:minmax(0,1fr) 50px;gap:0;padding:0;}
.main-pane{max-height:100vh;border:0;border-radius:0;background:var(--surface);scrollbar-gutter:auto;}
.range-tabs{margin:0;padding:14px var(--content-x) 12px;min-height:50px;border:0;border-bottom:1px solid var(--line);border-radius:0;background:transparent;}
.view-title{font-size:16px;font-weight:750;letter-spacing:0;}
.range-tab{min-width:32px;min-height:28px;padding:4px 8px;border-radius:6px;font-size:10.5px;font-weight:700;letter-spacing:0;}
.range-tab.active{background:var(--surface-raised);box-shadow:0 1px 4px rgba(0,0,0,.15);color:var(--accent);}
body:not([data-rail-view="overview"]) .range-tabs .range-tab{display:none;}
.summary-strip{grid-template-columns:repeat(4,minmax(0,1fr));gap:0;padding:12px var(--content-x) 14px;border-bottom:1px solid var(--line);}
.summary-cell{position:relative;min-height:50px;padding:0 10px;border:0;border-left:1px solid var(--line);border-radius:0;background:transparent;overflow:hidden;}
.summary-cell:first-child{padding-left:0;border-left:0;}
"##;

/// Part 14 of the dashboard page.
pub const PAGE_14: &'static str = r##".summary-cell:last-child{padding-right:0;}
.summary-label{font-size:10px;font-weight:650;letter-spacing:0;}
.summary-value{margin-top:5px;font-size:17px;line-height:1.05;font-weight:750;letter-spacing:0;}
.summary-meter{display:block;height:3px;margin-top:8px;border-radius:99px;background:var(--track);overflow:hidden;}
.summary-meter .bar-fill{display:block;}
.row{grid-template-columns:21px minmax(0,1fr);gap:13px;padding:var(--section-y) var(--content-x);}
.ic{opacity:.82;}
.name{font-size:11.5px;font-weight:700;letter-spacing:0;}
.val{font-size:15px;font-weight:700;letter-spacing:0;}
.sub{margin-top:3px;}
.cores{height:24px;margin-top:9px;background:var(--track);}
.chart{height:34px;margin-top:10px;}
.data-loading{background:var(--chip-bg);}
.setup{padding:12px var(--content-x);}
.rail-panel{padding:var(--panel-pad) var(--content-x);}
.panel-title-row{margin-bottom:12px;}
.rail-panel .panel-title{font-size:16px;font-weight:750;letter-spacing:0;}
.settings-item{padding:12px 0;}
.ctl{padding:0 var(--content-x) 16px;}
.ctl-head{padding:14px 0 10px;}
.profile-strip{gap:6px;margin:4px 0 10px;}
.profile-strip button{min-height:31px;border-radius:7px;}
.fan-input{padding:7px 8px;border-radius:7px;background:var(--chip-bg);}
.fan-card{padding:11px 0;}
.fan-inputs{gap:0;padding:11px 0 12px;border-bottom:1px solid var(--line);}
.fan-input{padding:0 10px;border:0;border-left:1px solid var(--line);border-radius:0;background:transparent;}
.fan-input:first-child{padding-left:0;border-left:0;}
.fan-input:last-child{padding-right:0;}
.fan-input span{font-size:10px;font-weight:650;letter-spacing:0;}
.fan-input b{margin-top:4px;font-size:11px;}
.profile-strip{padding:4px;gap:3px;border-radius:9px;background:var(--chip-bg);}
.profile-strip{position:relative;overflow:hidden;}
.profile-strip button{min-height:30px;padding:6px 3px;border:0;border-radius:6px;background:transparent;transform-origin:center;}
.profile-strip button:hover{background:var(--track-hover);}
.profile-strip button.active{border-color:transparent;background:var(--surface-raised);box-shadow:0 1px 4px rgba(0,0,0,.15);color:var(--text);}
.profile-strip button.active:disabled{opacity:.8;}
.profile-strip.pending::after{content:"";position:absolute;left:0;bottom:0;width:34%;height:2px;border-radius:2px;background:var(--accent);transform:translateX(-110%);animation:fan-pending-slide 1.1s ease-in-out infinite;}
"##;

/// Part 15 of the dashboard page.
pub const PAGE_15: &'static str = r##".profile-strip.confirmed button.active{color:var(--g);box-shadow:0 1px 4px rgba(0,0,0,.15),inset 0 0 0 1px var(--ok-soft);}
.profile-strip.failed{box-shadow:inset 0 0 0 1px var(--danger-border);}
@keyframes fan-pending-slide{0%{transform:translateX(-110%)}100%{transform:translateX(305%)}}
.profile-guide{display:grid;grid-template-columns:minmax(0,1fr) 64px;gap:10px;align-items:center;margin:0 0 8px;padding:8px 9px;border:1px solid var(--line);border-radius:7px;background:rgba(255,255,255,.018);}
.profile-guide-copy{min-width:0;}
.profile-guide-title{display:block;color:var(--text);font-size:11px;font-weight:750;white-space:nowrap;overflow:hidden;text-overflow:ellipsis;}
.profile-guide-detail{display:block;margin-top:2px;color:var(--dim);font-size:10.5px;line-height:1.35;white-space:nowrap;overflow:hidden;text-overflow:ellipsis;}
.profile-preview-bars{display:flex;align-items:flex-end;justify-content:flex-end;gap:3px;height:28px;}
.profile-preview-bars span{width:8px;min-height:2px;border-radius:2px 2px 1px 1px;background:var(--accent);opacity:.82;transition:height .18s ease;}
.profile-guide[data-mode="auto"] .profile-preview-bars span{background:var(--g);opacity:.6;}
.fan-apply-status{display:flex;align-items:center;gap:6px;min-height:17px;margin:0 0 5px;}
.fan-apply-status::before{content:"";display:block;width:6px;height:6px;border-radius:2px;background:currentColor;opacity:.9;flex:0 0 auto;}
.fan-apply-status:empty::before{display:none;}
.fan-bar{height:4px;margin-bottom:6px;}
.fan-seg{padding:2px;border-radius:7px;background:var(--chip-bg);}
.fan-seg button{padding:3px 7px;border:0;border-radius:5px;background:transparent;transform-origin:center;}
.fan-seg button.active{border-color:transparent;background:var(--surface-raised);box-shadow:0 1px 3px rgba(0,0,0,.14);}
.panel-pill{height:22px;padding:0 8px;border-radius:7px;font-size:9px;}
.rail-panel .panel-title{font-size:12.5px;font-weight:700;}
.rail-panel .panel-action{min-height:31px;border-radius:7px;}
#rail-settings-panel{padding-bottom:6px;}
#rail-update-panel{border-bottom:0;}
#rail-more-panel{padding-bottom:14px;}
.settings-item{min-height:48px;}
.settings-details{padding:12px 0;}
.settings-details>summary{min-height:24px;}
.health-row{min-height:22px;align-items:center;}
.release-notes-card{border-radius:7px;background:var(--chip-bg);}
"##;

/// Part 16 of the dashboard page.
pub const PAGE_16: &'static str = r##".profile-strip button:not(:disabled):active,.fan-seg button:not(:disabled):active,.panel-action:not(:disabled):active,.range-tab:not(:disabled):active,.setup-actions button:not(:disabled):active{transform:scale(.97);}
.action-rail{align-self:stretch;gap:4px;padding:10px 5px;border-left:1px solid var(--line);background:var(--panel-bg);}
.rail-btn{height:44px;border:0;border-radius:8px;transition:background .15s,color .15s,transform .1s;}
.rail-btn:hover{border-color:transparent;background:var(--chip-hover);}
.rail-btn:active{transform:scale(.96);}
.rail-btn svg{width:19px;height:19px;}
.rail-btn.active{border-color:transparent;background:var(--accent-soft);box-shadow:none;color:var(--accent);}
button:focus-visible,input:focus-visible,summary:focus-visible{outline:2px solid var(--accent);outline-offset:2px;}
@media (prefers-reduced-motion:reduce){
*,*::before,*::after{animation-duration:.01ms!important;animation-iteration-count:1!important;transition-duration:.01ms!important;scroll-behavior:auto!important;}
.profile-strip.pending::after{width:100%;transform:none;animation:none;opacity:.65;}
}
@media (prefers-color-scheme: light){
.range-tab.active{box-shadow:0 1px 4px rgba(24,32,44,.10);}
.rail-btn.active{background:var(--accent-soft);}
}
</style></head><body class="compact" data-rail-view="overview"><div class="panel"><div class="dashboard-shell"><main class="main-pane">

<div class="range-tabs" id="range-tabs">
<div class="view-title">Status</div>
<button class="range-tab active" data-range="2m" aria-pressed="true" onclick="setChartRange('2m')">2m</button>
<button class="range-tab" data-range="1h" aria-pressed="false" onclick="setChartRange('1h')">1h</button>
<button class="range-tab" data-range="1d" aria-pressed="false" onclick="setChartRange('1d')">1d</button>
</div>

<div class="health-verdict info" id="health-verdict" role="status" aria-live="polite" aria-atomic="true">
<span class="health-verdict-dot" aria-hidden="true"></span>
<div class="health-verdict-copy"><strong class="health-verdict-title" id="health-verdict-title">Checking your Mac…</strong><span class="health-verdict-detail" id="health-verdict-detail">Waiting for the first sensor sample.</span></div>
</div>

<div class="summary-strip" id="summary-strip" aria-label="Live summary">
"##;

/// Part 17 of the dashboard page.
pub const PAGE_17: &'static str = r##"<div class="summary-cell cpu"><span class="summary-label" id="summary-cpu-label">CPU</span><span class="summary-value" id="summary-cpu">—</span><span class="summary-meter"><span class="bar-fill" id="summary-cpu-bar"></span></span></div>
<div class="summary-cell memory"><span class="summary-label" id="summary-mem-label">Memory</span><span class="summary-value" id="summary-mem">—</span><span class="summary-meter"><span class="bar-fill" id="summary-mem-bar"></span></span></div>
<div class="summary-cell temperature"><span class="summary-label" id="summary-temp-label">CPU temp</span><span class="summary-value" id="summary-temp">—</span><span class="summary-meter"><span class="bar-fill" id="summary-temp-bar"></span></span></div>
<div class="summary-cell fan"><span class="summary-label" id="summary-fan-label">Fans</span><span class="summary-value" id="summary-fan">—</span><span class="summary-meter"><span class="bar-fill info" id="summary-fan-bar"></span></span></div>
</div>

<div class="data-loading" id="data-loading" role="status" aria-live="polite"><span class="data-loading-dot"></span><span id="data-loading-text">Reading system sensors…</span><button class="loading-retry" id="data-loading-retry" style="display:none" onclick="retryDashboard()">Retry</button></div>

<div class="setup" id="setup-row">
<div class="setup-copy"><div class="setup-main"><span class="setup-dot" id="setup-dot"></span><span id="setup-title">Ready</span></div><div class="setup-sub" id="setup-detail"></div></div>
<div class="setup-actions">
<button id="setup-fan" class="primary" disabled onclick="startFanControlSetup(this)">Set Up</button>
<div class="setup-menu-wrap">
<button id="setup-more" class="setup-more" disabled onclick="toggleSetupMenu(event)" onkeydown="handleSetupMoreKey(event)" aria-label="Setup actions" aria-haspopup="menu" aria-expanded="false" title="Setup actions">…</button>
<div class="setup-menu" id="setup-menu" role="menu" onkeydown="handleSetupMenuKey(event)">
<button class="setup-menu-item" role="menuitem" id="setup-startup" disabled onclick="closeSetupMenu();toggleStartupItem(this)">Start on login</button>
<button class="setup-menu-item" role="menuitem" id="setup-update" disabled onclick="closeSetupMenu();installAppUpdate(this)">Update</button>
</div>
</div>
</div>
</div>

<div class="rail-panel" id="rail-settings-panel">
<div class="panel-title-row"><div class="panel-title">General</div><span class="panel-pill info" id="rail-settings-pill">PeterFan</span></div>
"##;

/// Part 18 of the dashboard page.
pub const PAGE_18: &'static str = r##"<div class="panel-copy">Manage startup and fan-control safety.</div>
<div class="settings-list">
<div class="settings-item" id="startup-setting">
<div><div class="settings-item-title">Start on login</div><div class="settings-item-copy">Run PeterFan automatically on startup.</div></div>
<button id="startup-toggle" class="panel-action secondary" disabled onclick="toggleStartupItem(this)">Enable</button>
</div>
<div class="settings-item" id="menubar-display-setting">
<div><div class="settings-item-title">Menu bar</div><div class="settings-item-copy">Choose temperature, CPU runner, or both.</div></div>
<div class="settings-control-stack">
<div class="display-segment" role="group" aria-label="Menu bar style">
<button id="display-number" data-display="number" aria-pressed="false" onclick="setMenubarDisplay('number')">Number</button>
<button id="display-runner" data-display="cat" aria-pressed="false" onclick="setMenubarDisplay('cat')">Runner</button>
<button id="display-both" data-display="both" aria-pressed="true" onclick="setMenubarDisplay('both')">Both</button>
</div>
<div class="runner-pace" id="runner-pace">CPU runner · waiting</div>
</div>
</div>
<div class="settings-item" id="runner-character-setting">
<div><div class="settings-item-title">Character</div><div class="settings-item-copy">Choose your CPU-responsive runner.</div></div>
<div class="character-segment" role="group" aria-label="Runner character">
<button data-character="cat" aria-pressed="true" onclick="setRunnerCharacter('cat')">Cat</button>
<button data-character="dog" aria-pressed="false" onclick="setRunnerCharacter('dog')">Dog</button>
<button data-character="rabbit" aria-pressed="false" onclick="setRunnerCharacter('rabbit')">Rabbit</button>
<button data-character="fox" aria-pressed="false" onclick="setRunnerCharacter('fox')">Fox</button>
</div>
</div>
<details class="settings-details" id="notification-settings">
<summary><span>Notifications</span><span class="panel-pill info" id="notification-pill">2 on</span></summary>
<div class="notification-list">
<div class="notification-row">
<div><div class="notification-title">CPU temperature warning</div><div class="notification-copy">CPU Core Average · separate from the 90°C safety alert</div></div>
"##;

/// Part 19 of the dashboard page.
pub const PAGE_19: &'static str = r##"<div class="notification-control"><input class="notification-threshold" id="notification-temp-threshold" type="number" min="50" max="110" step="1" value="85" disabled onchange="changeTemperatureNotification()"><span class="notification-unit">°C</span><input class="notification-toggle" id="notification-temp-toggle" type="checkbox" aria-label="CPU temperature warning" onchange="toggleTemperatureNotification(this.checked)"></div>
</div>
<div class="notification-row">
<div><div class="notification-title">Fan control failures</div><div class="notification-copy">Notify when write or RPM verification fails</div></div>
<input class="notification-toggle" id="notification-fan-toggle" type="checkbox" aria-label="Fan control failures" checked onchange="setNotificationBoolean('fan-failures',this.checked)">
</div>
<div class="notification-row">
<div><div class="notification-title">App updates</div><div class="notification-copy">Notify after the silent launch check finds a release</div></div>
<input class="notification-toggle" id="notification-update-toggle" type="checkbox" aria-label="App updates" checked onchange="setNotificationBoolean('updates',this.checked)">
</div>
</div>
</details>
<details class="settings-details" id="fan-health-card">
<summary><span>Fan Control Health</span><span class="panel-pill info" id="health-pill">Ready</span></summary>
<div class="health-grid">
<div class="health-row"><span class="health-label">Daemon</span><span class="health-value" id="health-daemon">—</span></div>
<div class="health-row"><span class="health-label">Control Path</span><span class="health-value" id="health-control-path">—</span></div>
<div class="health-row"><span class="health-label">Last Command</span><span class="health-value" id="health-last-command">—</span></div>
<div class="health-row"><span class="health-label">Safety State</span><span class="health-value" id="health-safety-state">—</span></div>
<div class="health-row"><span class="health-label">Fans Detected</span><span class="health-value" id="health-fans">—</span></div>
<div class="health-row"><span class="health-label">Admin Approval</span><span class="health-value" id="health-approval">—</span></div>
<div class="health-row"><span class="health-label">App</span><span class="health-value" id="health-app">—</span></div>
</div>
<details class="health-details"><summary>Technical details</summary><div class="health-grid">
"##;

/// Part 20 of the dashboard page.
pub const PAGE_20: &'static str = r##"<div class="health-row"><span class="health-label">Helper</span><span class="health-value" id="health-helper">—</span></div>
<div class="health-row"><span class="health-label">LaunchDaemon</span><span class="health-value" id="health-launch-daemon">—</span></div>
<div class="health-row"><span class="health-label">Team ID</span><span class="health-value" id="health-team-id">—</span></div>
<div class="health-row"><span class="health-label">Curve Input</span><span class="health-value" id="health-curve-input">—</span></div>
<div class="health-row"><span class="health-label">Core Hottest</span><span class="health-value" id="health-core-hottest">—</span></div>
<div class="health-row"><span class="health-label">Safety Hottest</span><span class="health-value" id="health-safety-hottest">—</span></div>
<div class="health-row"><span class="health-label">Critical Limit</span><span class="health-value" id="health-critical-limit">—</span></div>
<div class="health-row"><span class="health-label">Sensor Failures</span><span class="health-value" id="health-sensor-failures">—</span></div>
<div class="health-row"><span class="health-label">Fan Write Failures</span><span class="health-value" id="health-write-failures">—</span></div>
<div class="health-row"><span class="health-label">Fan RPM Verification</span><span class="health-value" id="health-readback">—</span></div>
<div class="health-row"><span class="health-label">Control Retry</span><span class="health-value" id="health-control-retry">—</span></div>
<div class="health-row"><span class="health-label">Last Control Error</span><span class="health-value" id="health-control-error">—</span></div>
</div></details>
<div id="fan-action-log-card">
<div class="health-head"><div class="health-title">Recent Fan Actions</div><button class="health-action" id="fan-diagnostic-button" disabled onclick="runFanDiagnostics(this)">Run Diagnostics</button></div>
<div class="action-log" id="fan-action-log"><div class="action-log-empty">No fan actions yet</div></div>
</div>
</details>
</div>
</div>

<div class="rail-panel" id="rail-update-panel">
<div class="panel-title-row"><div class="panel-title">Updates</div><span class="panel-pill info" id="rail-update-pill">Ready</span></div>
<div class="panel-copy" id="rail-update-copy">Check for a signed release, then install it when ready.</div>
<div class="health-grid" id="update-version-grid">
"##;

/// Part 21 of the dashboard page.
pub const PAGE_21: &'static str = r##"<div class="health-row"><span class="health-label">Installed app</span><span class="health-value" id="update-current-version">—</span></div>
<div class="health-row"><span class="health-label">Latest signed</span><span class="health-value" id="update-latest-version">—</span></div>
<div class="health-row"><span class="health-label">Status</span><span class="health-value" id="update-check-result">—</span></div>
</div>
<div class="release-notes-card" id="update-release-notes-card" style="display:none"><div class="release-notes-title">Release Notes</div><div class="release-notes-body" id="update-release-notes">—</div></div>
<div class="panel-actions" style="margin-top:10px"><button class="panel-action secondary" id="rail-update-check" disabled onclick="checkAppUpdates(this)">Check for Updates</button><button class="panel-action" id="rail-update-install" disabled onclick="installAppUpdate(this)">Install Update</button><button class="panel-action secondary" id="update-release-link" onclick="openLatestRelease()" style="display:none">View Release</button></div>
</div>

<div class="rail-panel" id="rail-more-panel">
<div class="panel-title-row"><div class="panel-title">Hardware</div><span class="panel-pill info" id="rail-more-pill">Live</span></div>
<div class="panel-copy">Storage, battery, network, and active processes.</div>
<div class="view-loading" id="system-loading" role="status" aria-live="polite" style="display:none"><span class="data-loading-dot"></span><span>Reading system metrics…</span></div>
<div class="system-facts" aria-label="System quick facts">
<div class="system-fact"><span class="system-fact-label">Load average</span><span class="system-fact-value" id="system-load">—</span></div>
<div class="system-fact"><span class="system-fact-label">Power</span><span class="system-fact-value" id="system-power">—</span></div>
<div class="system-fact"><span class="system-fact-label">Network rate</span><span class="system-fact-value" id="system-network-rate">—</span></div>
<div class="system-fact"><span class="system-fact-label">Uptime</span><span class="system-fact-value" id="system-uptime">—</span></div>
</div>
<div class="health-card" id="hardware-availability-card" style="display:none">
<div class="health-head"><div class="health-title">Hardware Availability</div><span class="panel-pill info" id="hardware-pill">Ready</span></div>
<div class="health-grid">
"##;

/// Part 22 of the dashboard page.
pub const PAGE_22: &'static str = r##"<div class="health-row"><span class="health-label">Fans Detected</span><span class="health-value" id="hardware-fans">—</span></div>
<div class="health-row"><span class="health-label">Battery</span><span class="health-value" id="hardware-battery">—</span></div>
<div class="health-row"><span class="health-label">Network</span><span class="health-value" id="hardware-network">—</span></div>
</div>
</div>
<div class="panel-actions"><button class="panel-action secondary" onclick="window.ipc.postMessage('open_detail')">Open Detail Window</button></div>
</div>

<div class="ctl" id="fan-control-section" style="border-top:0;border-bottom:1px solid var(--line)">
<div class="ctl-head"><span class="name">Fan control</span><span class="ctl-status" id="ctl-status"></span></div>
<div class="fan-inputs" id="fan-inputs">
<div class="fan-input"><span>Curve Input</span><b id="fan-curve-input">—</b></div>
<div class="fan-input"><span>Safety Hottest</span><b id="fan-safety-hottest">—</b></div>
<div class="fan-input"><span>Critical Limit</span><b id="fan-critical-limit">—</b></div>
</div>
<div class="profile-strip" id="profile-strip">
<button class="active" disabled data-mode="auto" aria-pressed="true" title="Auto" onclick="setAuto()">Auto</button>
<button disabled data-mode="profile" data-profile="silent" aria-pressed="false" title="Silent" onclick="setProfile('silent')">Quiet</button>
<button disabled data-mode="profile" data-profile="balanced" aria-pressed="false" title="Balanced" onclick="setProfile('balanced')">Balance</button>
<button disabled data-mode="profile" data-profile="gaming" aria-pressed="false" title="Gaming" onclick="setProfile('gaming')">Game</button>
<button disabled data-mode="profile" data-profile="performance" aria-pressed="false" title="Performance" onclick="setProfile('performance')">Fast</button>
<button disabled data-mode="profile" data-profile="maximum" aria-pressed="false" title="Maximum" onclick="setProfile('maximum')">Max</button>
</div>
<div class="profile-guide" id="profile-guide" data-mode="auto" role="status" aria-live="polite" aria-atomic="true">
<div class="profile-guide-copy"><strong class="profile-guide-title" id="profile-guide-title">macOS Auto</strong><span class="profile-guide-detail" id="profile-guide-detail">macOS manages fan speed for the current workload.</span></div>
<div class="profile-preview-bars" id="profile-preview-bars" aria-hidden="true"><span></span><span></span><span></span><span></span><span></span></div>
</div>
"##;

/// Part 23 of the dashboard page.
pub const PAGE_23: &'static str = r##"<div class="fan-apply-status" id="fan-apply-status" role="status" aria-live="polite" aria-atomic="true"></div>
<div class="fan-cards" id="fan-cards"></div>
<div class="empty-state" id="fan-empty-state" style="display:none"><strong class="empty-state-title">No fan sensors</strong><span class="empty-state-copy">No fan sensors were reported. CPU, memory, and network monitoring remain available; temperature appears only when this system exposes a supported sensor.</span></div>
<div class="ctl-note" id="ctl-note" style="display:none"></div>
</div>

<div class="row" id="curve-editor-section" style="display:none;border-bottom:1px solid var(--line)"><span class="ic"><svg viewBox="0 0 24 24"><path d="M3 17l5-6 4 3 9-9"/><path d="M3 21h18"/></svg></span>
<div class="content"><div class="head"><span class="name">Fan Curve</span></div>
<canvas id="curve-canvas"></canvas>
<div class="sub" id="curve-hint">Drag points to reshape. Click empty space to add a point.</div>
<div class="curve-point-row" id="curve-point-row" style="display:none">
<span id="curve-point-label">Selected point</span>
<input type="number" id="cp-temp" min="0" max="100"><span>°C</span>
<span class="cpr-arrow">→</span>
<input type="number" id="cp-duty" min="0" max="100"><span>%</span>
</div>
<div class="curve-actions">
<button onclick="resetCurve()">Reset</button>
<button onclick="removeCurvePoint()">Remove Point</button>
<button class="primary" onclick="saveCurve()">Save &amp; Apply</button>
</div>
</div></div>

<div class="row" id="sec-cpu"><span class="ic"><svg viewBox="0 0 24 24"><rect x="6" y="6" width="12" height="12" rx="2"/><path d="M9 2v3M15 2v3M9 19v3M15 19v3M2 9h3M2 15h3M19 9h3M19 15h3"/></svg></span>
<div class="content"><div class="head"><span class="name">CPU</span><span class="val" id="cpu-val">—</span></div>
<div class="sub" id="cpu-sub"></div><div class="cores" id="cores"></div>
<button type="button" class="core-details-head" id="core-details-head" aria-expanded="false" aria-controls="core-details-list" onclick="toggleCoreDetails()">Core details</button><div class="core-details-list" id="core-details-list"></div>
<div class="bar"><div class="bar-fill" id="cpu-bar"></div></div>
<canvas class="chart" id="cpu-chart"></canvas><div class="chart-stats" id="cpu-chart-stats"></div></div></div>

"##;

/// Part 24 of the dashboard page.
pub const PAGE_24: &'static str = r##"<div class="row" id="sec-mem"><span class="ic"><svg viewBox="0 0 24 24"><rect x="2" y="7" width="20" height="11" rx="1.5"/><path d="M6 18v2M10 18v2M14 18v2M18 18v2M6 10v4M10 10v4M14 10v4"/></svg></span>
<div class="content"><div class="head"><span class="name">Memory</span><span class="val" id="mem-val">—</span></div>
<div class="sub" id="mem-sub"></div><div class="bar"><div class="bar-fill" id="mem-bar"></div></div>
<canvas class="chart" id="mem-chart"></canvas><div class="chart-stats" id="mem-chart-stats"></div></div></div>

<div class="row compact-extra" id="sec-storage" data-compact-extra="storage"><span class="ic"><svg viewBox="0 0 24 24"><ellipse cx="12" cy="6" rx="8" ry="3"/><path d="M4 6v12c0 1.7 3.6 3 8 3s8-1.3 8-3V6"/><path d="M4 12c0 1.7 3.6 3 8 3s8-1.3 8-3"/></svg></span>
<div class="content"><div class="head"><span class="name">Storage</span><span class="val" id="disk-val">—</span></div>
<div class="sub" id="disk-sub"></div><div class="bar"><div class="bar-fill" id="disk-bar"></div></div>
<div class="sub" id="disk-io-sub" style="display:none;margin-top:4px"></div>
<canvas class="chart" id="disk-io-chart" style="display:none"></canvas><div class="chart-stats" id="disk-io-chart-stats"></div></div></div>

<div class="row" id="sec-temp"><span class="ic"><svg viewBox="0 0 24 24"><path d="M14 14.76V5a2 2 0 0 0-4 0v9.76a4 4 0 1 0 4 0z"/></svg></span>
<div class="content"><div class="head"><span class="name" id="temp-name">Temperature</span><span class="val" id="temp-val">—</span></div>
<div class="bar"><div class="bar-fill" id="temp-bar"></div></div><div id="temp-list"></div><div class="metric-empty" id="temp-empty" style="display:none">CPU temperature sensors are unavailable.</div>
<button type="button" class="all-temp-head" id="all-temp-head" aria-expanded="false" aria-controls="all-temp-list" onclick="toggleRawTemps()">All sensors</button><div class="all-temp-list" id="all-temp-list"></div>
<canvas class="chart" id="temp-chart"></canvas><div class="chart-stats" id="temp-chart-stats"></div></div></div>

<div class="row compact-extra" id="sec-batt" data-compact-extra="battery"><span class="ic"><svg viewBox="0 0 24 24"><rect x="2" y="8" width="18" height="9" rx="2"/><path d="M22 11v3"/></svg></span>
<div class="content"><div class="head"><span class="name">Battery</span><span class="val" id="batt-val">—</span></div>
<div class="sub" id="batt-sub"></div><div class="bar"><div class="bar-fill" id="batt-bar"></div></div></div></div>

"##;

/// Part 25 of the dashboard page.
pub const PAGE_25: &'static str = r##"<div class="row compact-extra" id="sec-network" data-compact-extra="network"><span class="ic"><svg viewBox="0 0 24 24"><circle cx="12" cy="12" r="9"/><path d="M3 12h18M12 3c2.5 2.5 2.5 15 0 18M12 3c-2.5 2.5-2.5 15 0 18"/></svg></span>
<div class="content"><div class="head"><span class="name">Network</span><span class="val"></span></div>
<div class="sub" id="net-sub"></div>
<div class="sub" id="net-ip" style="display:none"></div>
<canvas class="chart" id="net-chart"></canvas><div class="chart-stats" id="net-chart-stats"></div></div></div>

<div class="row compact-extra" id="sec-procs" data-compact-extra="processes"><span class="ic"><svg viewBox="0 0 24 24"><rect x="3" y="4" width="18" height="16" rx="2"/><path d="M3 9h18M8 4v5"/></svg></span>
<div class="content"><div class="head"><span class="name">Top Processes</span><span class="sort-tabs"><button class="range-tab" id="ps-cpu" aria-pressed="true" onclick="setProcSort('cpu')">CPU</button><button class="range-tab" id="ps-mem" aria-pressed="false" onclick="setProcSort('mem')">MEM</button></span></div>
<div id="procs-list"></div></div></div>

<div class="foot compact-extra" data-compact-extra="quit"><button class="quit" onclick="window.ipc.postMessage('quit')">Quit PeterFan</button></div>
</main>
<aside class="action-rail" aria-label="Quick actions">
<button class="rail-btn active" id="railDetail" data-rail-action="detail" aria-label="Status" aria-pressed="true" onclick="runRailAction('detail',this)" title="Status"><svg viewBox="0 0 24 24"><rect x="4" y="5" width="16" height="14" rx="2"/><path d="M8 10h8M8 14h5"/></svg><span>Status</span></button>
<button class="rail-btn" id="railFan" data-rail-action="fan" aria-label="Fans" aria-pressed="false" onclick="runRailAction('fan',this)" title="Fans"><svg viewBox="0 0 24 24"><circle cx="12" cy="12" r="2.2"/><path d="M12 4c3 0 4.5 2 3 4.5L12 12M20 12c0 3-2 4.5-4.5 3L12 12M12 20c-3 0-4.5-2-3-4.5L12 12M4 12c0-3 2-4.5 4.5-3L12 12"/></svg><span>Fans</span></button>
"##;

/// Part 26 of the dashboard page.
pub const PAGE_26: &'static str = r##"<button class="rail-btn" id="railSettings" data-rail-action="settings" aria-label="Settings" aria-pressed="false" onclick="runRailAction('settings',this)" title="Settings"><svg viewBox="0 0 24 24"><path d="M12 15.5a3.5 3.5 0 1 0 0-7 3.5 3.5 0 0 0 0 7z"/><path d="M19.4 15a1.7 1.7 0 0 0 .3 1.9l.1.1-2 3.4-.2-.1a1.7 1.7 0 0 0-1.9-.1 8 8 0 0 1-1.4.8 1.7 1.7 0 0 0-1.1 1.5V23h-4v-.5A1.7 1.7 0 0 0 8.1 21a8 8 0 0 1-1.4-.8 1.7 1.7 0 0 0-1.9.1l-.2.1-2-3.4.1-.1A1.7 1.7 0 0 0 3 15a8.6 8.6 0 0 1 0-1.7 1.7 1.7 0 0 0-.3-1.9l-.1-.1 2-3.4.2.1a1.7 1.7 0 0 0 1.9.1A8 8 0 0 1 8.1 7a1.7 1.7 0 0 0 1.1-1.5V5h4v.5A1.7 1.7 0 0 0 14.3 7a8 8 0 0 1 1.4.8 1.7 1.7 0 0 0 1.9-.1l.2-.1 2 3.4-.1.1a1.7 1.7 0 0 0-.3 1.9 8.6 8.6 0 0 1 0 2z"/></svg><span>Settings</span></button>
<button class="rail-btn" id="railSystem" data-rail-action="system" aria-label="System" aria-pressed="false" onclick="runRailAction('system',this)" title="System"><svg viewBox="0 0 24 24"><ellipse cx="12" cy="5" rx="7" ry="2.5"/><path d="M5 5v7c0 1.4 3.1 2.5 7 2.5s7-1.1 7-2.5V5M5 12v7c0 1.4 3.1 2.5 7 2.5s7-1.1 7-2.5v-7"/></svg><span>System</span></button>
</aside></div></div>
<div class="chart-tip" id="chart-tip"></div>
<script>
var LANG='__LANG__';
var SHOW_CURVE_EDITOR='__SHOWCURVE__';
var CORE_DETAILS_OPEN=false;
// Keep WebView failures visible to the native diagnostic log. A blank pane is
// otherwise indistinguishable from a slow sensor read.
window.onerror=function(message,source,line,column,error){
  if(window.ipc)window.ipc.postMessage('js-error:'+String(message||error||'unknown').slice(0,240));
};
window.onunhandledrejection=function(event){
  if(window.ipc)window.ipc.postMessage('js-error:'+String(event.reason||'unhandled rejection').slice(0,240));
};
var FAN_CONTROL_FIX_PENDING=false;
var FAN_CONTROL_FIX_REVISION=0;
var FAN_DIAGNOSTIC_PENDING=false;
var FAN_DIAGNOSTIC_STARTED_AT=0;
var LOGIN_ITEM_TOGGLE_PENDING=false;
var APP_UPDATE_CHECK_PENDING=false;
var APP_UPDATE_STATUS=null;
var APP_PERSISTED_UPDATE_KEY='';
var FAN_CONTROL_PENDING=null;
var FAN_CONTROL_RESULT=null;
var DATA_LOADING_TIMER=setTimeout(function(){
  if(document.body.classList.contains('data-ready'))return;
  var text=document.getElementById('data-loading-text');
  var retry=document.getElementById('data-loading-retry');
  if(text)text.textContent=LANG==='ko'?'센서 조회가 지연되고 있습니다':'Sensor reading is taking longer than expected';
  if(retry){retry.style.display='';retry.disabled=false;}
},4000);
"##;

/// Part 27 of the dashboard page.
pub const PAGE_27: &'static str = r##"if(!('__pf_pending' in window))window.__pf_pending=null;
function applyPendingUpdate(){
  if(window.__pf&&window.__pf.update&&window.__pf_pending)window.__pf.update(window.__pf_pending);
}
function storageGet(k){
  try{return localStorage.getItem(k);}catch(e){return null;}
}
function storageSet(k,v){
  try{localStorage.setItem(k,v);}catch(e){}
}
var RAIL_VIEW=storageGet('pf.rail.view')||'overview';
if(RAIL_VIEW==='update'||RAIL_VIEW==='more')RAIL_VIEW='system';
if(!/^(overview|fan|settings|system)$/.test(RAIL_VIEW))RAIL_VIEW='overview';
function railView(){
  return RAIL_VIEW||'overview';
}
function setRailView(view){
  if(view==='update'||view==='more')view='system';
  if(!/^(overview|fan|settings|system)$/.test(view))view='overview';
  RAIL_VIEW=view;
  storageSet('pf.rail.view',view);
  document.body.setAttribute('data-rail-view',view);
  applyRailView(true);
  if(window.ipc)window.ipc.postMessage('view:'+view);
  requestAnimationFrame(function(){
    if(window.__pf&&window.__pf.update&&window.__pf_pending)window.__pf.update(window.__pf_pending);
  });
}
function setVisible(id,on){
  var el=document.getElementById(id);
  if(!el)return;
  if(on&&el.classList.contains('rail-panel'))el.style.display='block';
  else if(on){
    el.style.display='';
  } else {
    el.style.display='none';
  }
}
function setRailButtonActive(id,on){
  var el=document.getElementById(id);
  if(el){
    el.classList.toggle('active',!!on);
    el.setAttribute('aria-pressed',on?'true':'false');
  }
}
function resetRailPaneScroll(){
  var pane=document.querySelector('.main-pane');
  if(pane)pane.scrollTop=0;
}
function applyRailView(resetScroll){
  var view=railView();
  document.body.setAttribute('data-rail-view',view);
  var all=['range-tabs','health-verdict','summary-strip','setup-row','fan-control-section','curve-editor-section','sec-cpu','sec-mem','sec-storage','sec-temp','sec-batt','sec-network','sec-procs','foot','rail-update-panel','rail-settings-panel','rail-more-panel'];
  all.forEach(function(id){setVisible(id,false);});
  setVisible('range-tabs',true);
  if(view==='fan'){
    setVisible('setup-row',true);
    setVisible('fan-control-section',true);
    if(SHOW_CURVE_EDITOR==='1')setVisible('curve-editor-section',true);
  } else if(view==='settings'){
    ['rail-settings-panel','rail-update-panel'].forEach(function(id){setVisible(id,true);});
  } else if(view==='system'){
"##;

/// Part 28 of the dashboard page.
pub const PAGE_28: &'static str = r##"    ['rail-more-panel','sec-storage','sec-batt','sec-network','sec-procs','foot'].forEach(function(id){setVisible(id,true);});
  } else {
    ['health-verdict','summary-strip','sec-cpu','sec-mem','sec-temp'].forEach(function(id){setVisible(id,true);});
  }
  ['Detail','Fan','Settings','System'].forEach(function(name){
    var key=name.toLowerCase();
    if(key==='detail')key='overview';
    setRailButtonActive('rail'+name,view===key);
  });
  var title=document.querySelector('.view-title');
  if(title)title.textContent=view==='fan'
    ?(LANG==='ko'?'팬 제어':'Fans')
    :(view==='settings'
      ?(LANG==='ko'?'설정':'Settings')
      :(view==='system'?(LANG==='ko'?'시스템':'System'):'PeterFan'));
  if(resetScroll)resetRailPaneScroll();
}
document.body.classList.add('compact');
setRailView(railView());
function setButtonLabel(btn,label){
  if(!btn)return;
  var span=btn.querySelector('span');
  if(span)span.textContent=label;
  else btn.textContent=label;
}
function setPanelPill(id,text,tone){
  var el=document.getElementById(id);
  if(!el)return;
  el.textContent=text;
  el.className='panel-pill '+(tone||'');
}
function retryDashboard(){
  var retry=document.getElementById('data-loading-retry');
  var text=document.getElementById('data-loading-text');
  if(retry)retry.disabled=true;
  if(text)text.textContent=LANG==='ko'?'다시 확인하는 중…':'Retrying sensor read…';
  if(window.ipc)window.ipc.postMessage('refresh');
  setTimeout(function(){if(retry&&!document.body.classList.contains('data-ready'))retry.disabled=false;},1500);
}
function setText(id,text){
  var el=document.getElementById(id);
  if(el)el.textContent=text||'—';
}
function compareVersions(a,b){
  function parts(v){
    return String(v||'').replace(/^v/,'').split('.').slice(0,3).map(function(p){
      var n=parseInt(p,10);
      return isNaN(n)?0:n;
    });
  }
  var aa=parts(a),bb=parts(b);
  for(var i=0;i<3;i++){
    var av=aa[i]||0,bv=bb[i]||0;
    if(av<bv)return -1;
    if(av>bv)return 1;
  }
  return 0;
}
function formatReleaseNotes(body){
  var raw=String(body||'').replace(/\r/g,'');
  var lines=raw.split('\n');
  var out=[];
  for(var i=0;i<lines.length;i++){
    var line=lines[i]
      .replace(/^#{1,6}\s*/,'')
      .replace(/\*\*/g,'')
      .replace(/`/g,'')
      .trim();
    if(!line){
      if(out.length&&out[out.length-1]!=='')out.push('');
      continue;
    }
    out.push(line);
    if(out.join('\n').length>700)break;
  }
  var text=out.join('\n').trim();
"##;

/// Part 29 of the dashboard page.
pub const PAGE_29: &'static str = r##"  if(text.length>700)text=text.slice(0,697)+'...';
  return text;
}
function renderUpdateStatus(status){
  if(status)APP_UPDATE_STATUS=status;
  var s=APP_UPDATE_STATUS||{};
  var phase=s.phase||'';
  var current=s.current||(window.__pf_pending&&window.__pf_pending.app_version)||'';
  setText('update-current-version',current?('v'+String(current).replace(/^v/,'')):'—');
  setText('update-latest-version',s.latest?('v'+String(s.latest).replace(/^v/,'')):'—');
  var result=document.getElementById('update-check-result');
  var link=document.getElementById('update-release-link');
  var install=document.getElementById('rail-update-install');
  var notesCard=document.getElementById('update-release-notes-card');
  var notesBody=document.getElementById('update-release-notes');
  var copy=document.getElementById('rail-update-copy');
  var pillText=LANG==='ko'?'준비':'Ready';
  var pillTone='info';
  var msg=LANG==='ko'?'업데이트 확인을 실행할 수 있습니다.':'PeterFan is ready to check for updates.';
  if(notesCard){
    notesCard.style.display=s.notes?'':'none';
    if(notesBody)notesBody.textContent=s.notes||'';
  }
  if(s.checking||phase==='checking'){
    msg=s.message||(LANG==='ko'?'GitHub 최신 릴리즈를 확인 중입니다.':'Checking the latest GitHub release.');
    pillText=LANG==='ko'?'확인 중':'Checking';
    pillTone='info';
    setText('update-check-result',LANG==='ko'?'확인 중…':'checking…');
  } else if(phase==='downloading'){
    msg=s.message||(LANG==='ko'?'새 버전을 내려받아 서명과 공증을 확인하고 있습니다.':'Downloading the new version and verifying its signature and notarization.');
    pillText=LANG==='ko'?'설치 중':'Installing';
    pillTone='info';
    setText('update-check-result',LANG==='ko'?'검증 및 설치 중':'verifying and installing');
  } else if(phase==='queued'){
    msg=s.message||(LANG==='ko'?'업데이트가 준비되었습니다. PeterFan이 자동으로 다시 열립니다.':'The update is ready. PeterFan will reopen automatically.');
    pillText=LANG==='ko'?'재실행 중':'Relaunching';
    pillTone='ok';
    setText('update-check-result',LANG==='ko'?'업데이트 준비 완료':'update ready');
  } else if(phase==='failed'){
    msg=s.message||(LANG==='ko'?'업데이트를 완료하지 못했습니다. 기존 앱은 변경하지 않았습니다.':'The update could not be completed. The existing app was not changed.');
    pillText=LANG==='ko'?'실패':'Failed';
    pillTone='warn';
    setText('update-check-result',LANG==='ko'?'업데이트 실패':'update failed');
  } else if(s.error){
    msg=(LANG==='ko'?'업데이트 확인 실패: ':'Update check failed: ')+s.error;
    pillText=LANG==='ko'?'실패':'Failed';
    pillTone='warn';
"##;

/// Part 30 of the dashboard page.
pub const PAGE_30: &'static str = r##"    setText('update-check-result',LANG==='ko'?'확인 실패':'check failed');
  } else if(s.install_status==='pending'){
    msg=LANG==='ko'?'새 버전을 설치하고 있습니다. PeterFan이 자동으로 다시 열립니다.':(s.install_message||'Installing the new PeterFan version. The app will reopen automatically.');
    pillText=LANG==='ko'?'설치 중':'Installing';
    pillTone='info';
    setText('update-check-result',LANG==='ko'?'설치 진행 중':'installation in progress');
  } else if(s.install_status==='installed'){
    msg=LANG==='ko'?('PeterFan v'+String(s.latest||current).replace(/^v/,'')+' 설치를 완료했습니다.'):(s.install_message||'PeterFan was installed successfully.');
    pillText=LANG==='ko'?'완료':'Installed';
    pillTone='ok';
    setText('update-check-result',LANG==='ko'?'설치 완료':'installed successfully');
  } else if(s.install_status==='rolled_back'){
    msg=LANG==='ko'?'업데이트에 실패해 이전 PeterFan 버전을 자동으로 복원했습니다.':(s.install_message||'The update failed and the previous PeterFan version was restored.');
    pillText=LANG==='ko'?'복원됨':'Restored';
    pillTone='warn';
    setText('update-check-result',LANG==='ko'?'이전 버전 복원':'previous version restored');
  } else if(s.install_status==='failed'){
    msg=(LANG==='ko'?'업데이트를 완료하지 못했습니다. 기존 앱은 변경하지 않았습니다.':(s.install_message||'The update could not be completed.'));
    pillText=LANG==='ko'?'실패':'Failed';
    pillTone='warn';
    setText('update-check-result',LANG==='ko'?'설치 실패':'installation failed');
  } else if(s.latest){
    var comparison=compareVersions(current,s.latest);
    var newer=comparison<0,ahead=comparison>0;
    msg=ahead
      ?(LANG==='ko'
        ?'설치된 앱이 최신 서명 릴리스보다 앞선 개발 빌드입니다.'
        :'The installed app is a development build ahead of the latest signed release.')
      :(s.message||(newer
        ?(LANG==='ko'?'새 서명 릴리스를 사용할 수 있습니다.':'A newer signed PeterFan release is available.')
        :(LANG==='ko'?'최신 서명 릴리스를 사용 중입니다.':'You are running the latest signed release.')));
    pillText=newer
      ?(LANG==='ko'?'업데이트 있음':'Update')
      :(ahead?(LANG==='ko'?'개발 빌드':'Dev build'):(LANG==='ko'?'최신':'Current'));
    pillTone=newer?'warn':(ahead?'info':'ok');
    setText('update-check-result',newer
      ?(LANG==='ko'?'업데이트 가능':'update available')
      :(ahead?(LANG==='ko'?'서명 릴리스보다 앞섬':'ahead of signed release'):(LANG==='ko'?'최신 상태':'up to date')));
  } else {
    setText('update-check-result',LANG==='ko'?'대기 중':'ready');
  }
  if(copy)copy.textContent=msg;
  setPanelPill('rail-update-pill',pillText,pillTone);
  if(link){
"##;

/// Part 31 of the dashboard page.
pub const PAGE_31: &'static str = r##"    link.style.display=s.url?'':'none';
    link.dataset.url=s.url||'';
    link.textContent=LANG==='ko'?'릴리즈 보기':'View Release';
  }
  if(install){
    var comparison=s.latest?compareVersions(current,s.latest):0;
    var updateKnown=!!s.latest&&comparison<0;
    var installing=phase==='downloading'||phase==='queued';
    var canInstall=updateKnown&&s.install_ready===true&&!s.checking&&phase!=='checking'&&!installing;
    install.style.display='';
    install.disabled=!canInstall;
    install.textContent=installing
      ?(LANG==='ko'?'설치 중…':'Installing…')
        :(updateKnown
          ?(s.install_ready===true
            ?(LANG==='ko'?'지금 업데이트':'Install Update')
            :(LANG==='ko'?'설치 준비 중':'Preparing Update'))
          :(s.latest&&comparison===0
            ?(LANG==='ko'?'최신 버전':'Up to Date')
            :(s.latest&&comparison>0
              ?(LANG==='ko'?'개발 빌드':'Development Build')
              :(LANG==='ko'?'지금 업데이트':'Install Update'))));
  }
}
function openLatestRelease(){
  var link=document.getElementById('update-release-link');
  var url=link&&link.dataset?link.dataset.url:'';
  if(url)window.ipc.postMessage('open:'+url);
}
function runRailAction(action,btn){
  switch(action){
    case 'detail':setRailView('overview');break;
    case 'fan':setRailView('fan');break;
    case 'settings':setRailView('settings');break;
    case 'system':case 'more':setRailView('system');break;
    case 'update':setRailView('settings');break;
  }
}
function coreGroupName(kind){
  if(kind==='performance')return LANG==='ko'?'성능 코어':'Performance cores';
  if(kind==='efficiency')return LANG==='ko'?'효율 코어':'Efficiency cores';
  return LANG==='ko'?'논리 코어':'Logical cores';
}
function coreMetadata(groups){
  var metadata={};
  (groups||[]).forEach(function(group){
    (group.cores||[]).forEach(function(core){metadata[Number(core.index)]=core;});
  });
  return metadata;
}
function renderCoreDetails(d){
  var head=document.getElementById('core-details-head');
  var list=document.getElementById('core-details-list');
  if(!head||!list)return;
  var groups=d.core_groups||[];
  var total=(d.cores||[]).length;
  head.textContent=(CORE_DETAILS_OPEN?'▾ ':'▸ ')+(LANG==='ko'?'코어 상세':'Core details')+(total?' · '+total:'');
  head.setAttribute('aria-expanded',CORE_DETAILS_OPEN?'true':'false');
  list.classList.toggle('open',CORE_DETAILS_OPEN);
  if(!CORE_DETAILS_OPEN)return;
  list.innerHTML='';
  groups.forEach(function(group){
"##;

/// Part 32 of the dashboard page.
pub const PAGE_32: &'static str = r##"    var section=document.createElement('div');section.className='core-group';
    var heading=document.createElement('div');heading.className='core-group-head';
    var name=document.createElement('span');name.className='core-group-name';name.textContent=coreGroupName(group.kind);
    var stats=document.createElement('span');stats.className='core-group-stats';
    stats.textContent=(LANG==='ko'?'평균 ':'avg ')+Number(group.average||0).toFixed(0)+'% · '+(LANG==='ko'?'최고 ':'peak ')+Number(group.peak||0).toFixed(0)+'%';
    heading.appendChild(name);heading.appendChild(stats);section.appendChild(heading);
    var grid=document.createElement('div');grid.className='core-detail-grid';
    (group.cores||[]).forEach(function(core){
      var usage=Math.max(0,Math.min(100,Number(core.usage)||0));
      var cell=document.createElement('div');cell.className='core-detail';cell.title=String(core.label||'Core')+': '+usage.toFixed(1)+'%';
      var label=document.createElement('span');label.className='core-detail-label';label.textContent=core.label||'—';
      var value=document.createElement('span');value.className='core-detail-value';value.textContent=usage.toFixed(0)+'%';
      var meter=document.createElement('span');meter.className='core-detail-meter';
      var fill=document.createElement('span');fill.className=usage<50?'':(usage<80?'y':'r');fill.style.width=usage+'%';
      meter.appendChild(fill);cell.appendChild(label);cell.appendChild(value);cell.appendChild(meter);grid.appendChild(cell);
    });
    section.appendChild(grid);list.appendChild(section);
  });
}
function toggleCoreDetails(){
  CORE_DETAILS_OPEN=!CORE_DETAILS_OPEN;
  renderCoreDetails(window.__pf_pending||{});
}
var RAW_TEMP_OPEN=false;
function toggleRawTemps(){
  RAW_TEMP_OPEN=!RAW_TEMP_OPEN;
  if(window.ipc)window.ipc.postMessage('rawtemps:'+(RAW_TEMP_OPEN?'1':'0'));
  renderRawTempList(window.__pf_pending||{});
}
function renderRawTempList(d){
  var ah=document.getElementById('all-temp-head'),al=document.getElementById('all-temp-list'),all=d.all_temps||[];
  if(ah){
    ah.textContent=(RAW_TEMP_OPEN?'▾ ':'▸ ')+(LANG==='ko'?'전체 센서':'All sensors')+(all.length?' · '+all.length:'');
    ah.setAttribute('aria-expanded',RAW_TEMP_OPEN?'true':'false');
    ah.style.display='';
  }
  if(al){
    al.style.display=RAW_TEMP_OPEN?'':'none';
    al.innerHTML='';
    if(RAW_TEMP_OPEN){
      if(!all.length){
        al.textContent=LANG==='ko'?'센서 읽는 중…':'Reading sensors…';
"##;

/// Part 33 of the dashboard page.
pub const PAGE_33: &'static str = r##"        al.className='all-temp-list sensor-loading';
        return;
      }
      al.className='all-temp-list';
      var groups=[];
      all.forEach(function(t){var name=t.group||'Other',g=groups.find(function(x){return x.name===name;});if(!g){g={name:name,items:[]};groups.push(g);}g.items.push(t);});
      groups.forEach(function(g){
        var h=document.createElement('div');h.className='sensor-group-head';h.textContent=g.name;al.appendChild(h);
        g.items.forEach(function(t){var r=document.createElement('div');r.className='trow'+(t.stale?' stale':'');r.innerHTML='<span class="l"></span><span class="src"></span><span class="v"></span>';r.children[0].textContent=t.l;r.children[0].title=t.l;r.children[1].textContent=(t.source||'')+(t.stale?' · '+(LANG==='ko'?'오래됨 ':'stale ')+Number(t.age_secs||0)+'s':'');r.children[2].textContent=t.c;r.children[2].className='v '+t.cls;al.appendChild(r);});
      });
    }
  }
}
function updateHealthVerdict(d){
  var root=document.getElementById('health-verdict');
  var title=document.getElementById('health-verdict-title');
  var detail=document.getElementById('health-verdict-detail');
  if(!root||!title||!detail)return;
  var temp=Number(d.temp_pct),cpu=Number(d.cpu_pct||0),fans=Number(d.fan_avg_rpm||0);
  var hasTemp=!!d.temp_present&&!d.temp_stale&&isFinite(temp)&&temp>0;
  var health=d.control_health||{};
  var failsafe=!!health.failsafe_active;
  var tone='ok',heading=LANG==='ko'?'정상':'Normal';
  if(!hasTemp){
    tone='info';
    heading=LANG==='ko'?'모니터링 중':'Monitoring';
  } else if(failsafe||temp>=95){
    tone='hot';
    heading=LANG==='ko'?'확인 필요':'Needs attention';
  } else if(temp>=88){
    tone='hot';
    heading=LANG==='ko'?'뜨거움':'Hot';
  } else if(temp>=78){
    tone='warm';
    heading=LANG==='ko'?'따뜻함':'Warm';
  } else if(cpu>=85){
    tone='info';
    heading=LANG==='ko'?'작업 중':'Busy';
  }
  var parts=[];
  if(hasTemp)parts.push((LANG==='ko'?'CPU 평균 ':'CPU avg ')+Math.round(temp)+'°C');
  else parts.push(d.temp_stale?(LANG==='ko'?'온도 값 오래됨':'temperature stale'):(LANG==='ko'?'온도 센서 없음':'temperature unavailable'));
  parts.push('CPU '+Math.round(cpu)+'%');
  if(fans>0)parts.push((LANG==='ko'?'팬 ':'fans ')+Math.round(fans)+' RPM');
  if(failsafe)parts.push(LANG==='ko'?'macOS 자동 복귀':'macOS safety fallback');
  root.className='health-verdict '+tone;
  title.textContent=heading;
  detail.textContent=parts.join(' · ');
}
function cssColor(token,fallback){
"##;

/// Part 34 of the dashboard page.
pub const PAGE_34: &'static str = r##"  var value=getComputedStyle(document.documentElement).getPropertyValue(token);
  return String(value||'').trim()||fallback;
}
window.__pf={
 update:function(d){
 function cls(p){return p<50?'g':p<80?'y':'r';}
 function bar(id,p,c){var b=document.getElementById(id);if(b){b.style.width=Math.max(0,Math.min(100,p))+'%';b.className='bar-fill '+(c||cls(p));}}
 function set(id,t){var e=document.getElementById(id);if(e)e.textContent=t;}
 function show(id,on){var e=document.getElementById(id);if(e)e.style.display=on?'':'none';}
 window.__pf_pending=d;
 if(d.fan_control_installing){
   if(!FAN_CONTROL_FIX_PENDING)FAN_CONTROL_FIX_REVISION=Number(d.fan_control_install_revision||0);
   FAN_CONTROL_FIX_PENDING=true;
 } else if(FAN_CONTROL_FIX_PENDING&&Number(d.fan_control_install_revision||0)>FAN_CONTROL_FIX_REVISION){
   FAN_CONTROL_FIX_PENDING=false;
 }
 document.body.classList.add('data-ready');
 clearTimeout(DATA_LOADING_TIMER);
 var loading=document.getElementById('data-loading');
 if(loading)loading.setAttribute('aria-hidden','true');
 var loadingRetry=document.getElementById('data-loading-retry');
 if(loadingRetry){loadingRetry.style.display='none';loadingRetry.disabled=false;}
 var view=railView();
 CHART_RANGE_LABEL=d.chart_range;
 updateRail(d);
 updateNotificationSettings(d);
 if(view==='overview'){
   updateHealthVerdict(d);
   set('summary-cpu',d.cpu_text||'—');
   set('summary-mem',d.mem_text||'—');
   set('summary-temp',d.temp_present?(d.temp_stale?'--°C':(d.temp_text||'—')):'—');
   set('summary-fan',d.fan_avg_rpm_text||'—');
   bar('summary-cpu-bar',d.cpu_pct||0);
   bar('summary-mem-bar',d.mem_pct||0,'info');
   bar('summary-temp-bar',d.temp_stale?0:(d.temp_pct||0),d.temp_stale?'info':(d.temp_cls||''));
   var fanPcts=(d.fans||[]).map(function(f){return Number(f.pct)||0;});
   var fanPct=fanPcts.length?fanPcts.reduce(function(sum,p){return sum+p;},0)/fanPcts.length:0;
   bar('summary-fan-bar',fanPct,'info');
   var summaryCpu=document.getElementById('summary-cpu');
   if(summaryCpu)summaryCpu.className='summary-value '+cls(d.cpu_pct||0);
   var summaryMem=document.getElementById('summary-mem');
   if(summaryMem)summaryMem.className='summary-value '+cls(d.mem_pct||0);
   var summaryTemp=document.getElementById('summary-temp');
   if(summaryTemp)summaryTemp.className='summary-value '+(d.temp_stale?'info':(d.temp_cls||''));
   var summaryFan=document.getElementById('summary-fan');
"##;

/// Part 35 of the dashboard page.
pub const PAGE_35: &'static str = r##"   if(summaryFan)summaryFan.className='summary-value '+(d.fan_avg_rpm>0?'info':'');
   set('cpu-val',d.cpu_text);set('cpu-sub',d.cpu_sub);bar('cpu-bar',d.cpu_pct);
   var cc=document.getElementById('cores');if(cc){var coreMeta=coreMetadata(d.core_groups);cc.innerHTML='';(d.cores||[]).forEach(function(p,i){var s=document.createElement('span'),meta=coreMeta[i];s.className='core '+cls(p);s.style.height=Math.max(8,Math.min(100,p))+'%';s.title=(meta&&meta.label?meta.label:('Core '+(i+1)))+': '+p.toFixed(1)+'%';cc.appendChild(s);});}
   renderCoreDetails(d);
   set('mem-val',d.mem_text);set('mem-sub',d.mem_sub);bar('mem-bar',d.mem_pct);
   show('sec-temp',true);if(d.temp_present){show('temp-empty',false);set('temp-name',(LANG==='ko'?'온도':'Temperature')+(d.temp_source?' · '+d.temp_source:'')+(d.temp_stale?' · '+(LANG==='ko'?'오래됨 ':'stale ')+Number(d.temp_age_secs||0)+'s':''));set('temp-val',d.temp_text);var tv=document.getElementById('temp-val');if(tv)tv.classList.toggle('stale',!!d.temp_stale);bar('temp-bar',d.temp_stale?0:d.temp_pct,d.temp_cls);
     var tl=document.getElementById('temp-list');if(tl){tl.innerHTML='';(d.temps||[]).forEach(function(t){var r=document.createElement('div');r.className='trow'+(t.stale?' stale':'');r.innerHTML='<span class="l"></span><span class="v"></span>';r.children[0].textContent=t.l;r.children[1].textContent=t.c+(t.stale?' · '+Number(t.age_secs||0)+'s':'');r.children[1].className='v '+t.cls;tl.appendChild(r);});}
     renderRawTempList(d);} else {
     show('temp-empty',true);set('temp-name',LANG==='ko'?'온도':'Temperature');set('temp-val','—');bar('temp-bar',0,'info');
     var tlEmpty=document.getElementById('temp-list');if(tlEmpty)tlEmpty.innerHTML='';var tvEmpty=document.getElementById('temp-val');if(tvEmpty)tvEmpty.classList.remove('stale');clearChart('temp-chart');set('temp-chart-stats','');renderRawTempList(d);
   }
   drawChart('cpu-chart', d.cpu_hist, cssColor('--accent','#6ea8ff'), 100, function(v){return v.toFixed(1)+'%';});
   drawChart('mem-chart', d.mem_hist, cssColor('--accent','#6ea8ff'), 100, function(v){return v.toFixed(1)+'%';});
   if(d.temp_present)drawChart('temp-chart', d.temp_stale?[]:d.temp_hist, cssColor('--y','#f4c95d'), null, function(v){return v.toFixed(0)+'°C';});
   document.querySelectorAll('.range-tabs .range-tab').forEach(function(b){var active=b.dataset.range===d.chart_range;b.classList.toggle('active',active);b.setAttribute('aria-pressed',active?'true':'false');});
"##;

/// Part 36 of the dashboard page.
pub const PAGE_36: &'static str = r##" } else if(view==='settings'||view==='system'){
   if(view==='settings'){updateSetup(d);updateMenubarDisplay(d);}
   else {
     updateHardwareAvailability(d);
     set('system-load',d.load_avg_text||'—');
     set('system-power',d.power_text||'—');
     set('system-network-rate',d.network_rate_text||'—');
     set('system-uptime',d.uptime_text||'—');
   }
   var systemLoading=document.getElementById('system-loading');
   if(systemLoading)systemLoading.style.display=view==='system'&&!d.slow_data_ready?'':'none';
   set('disk-val',d.disk_text);set('disk-sub',d.disk_sub);bar('disk-bar',d.disk_pct);
   show('disk-io-sub',d.disk_io_present);if(d.disk_io_present)set('disk-io-sub',d.disk_io_sub);
   show('disk-io-chart',d.disk_io_present);show('disk-io-chart-stats',d.disk_io_present);
   if(d.disk_io_present)drawChart('disk-io-chart', d.disk_io_hist, cssColor('--y','#f4c95d'), null, fmtBytesPerSec);
   show('sec-batt',d.batt_present);if(d.batt_present){set('batt-val',d.batt_text);set('batt-sub',d.batt_sub);bar('batt-bar',d.batt_pct,d.batt_pct>50?'g':d.batt_pct>20?'y':'r');}
   var battSec=document.getElementById('sec-batt');if(battSec)battSec.dataset.present=d.batt_present?'1':'0';
   set('net-sub',d.net_sub);show('net-ip',!!d.net_ip);if(d.net_ip)set('net-ip',d.net_ip);
   var psCpu=document.getElementById('ps-cpu'),psMem=document.getElementById('ps-mem');
   if(psCpu){var cpuSort=d.proc_sort!=='mem';psCpu.classList.toggle('active',cpuSort);psCpu.setAttribute('aria-pressed',cpuSort?'true':'false');}
   if(psMem){var memSort=d.proc_sort==='mem';psMem.classList.toggle('active',memSort);psMem.setAttribute('aria-pressed',memSort?'true':'false');}
   if(psMem)psMem.classList.toggle('active',d.proc_sort==='mem');
   var pl=document.getElementById('procs-list');
   if(pl){pl.innerHTML='';(d.procs||[]).forEach(function(p){var r=document.createElement('div');r.className='prow';r.innerHTML='<span class="n"></span><span class="c"></span><span class="m"></span><button class="pkill" title="Quit process">×</button>';r.children[0].textContent=p.name;r.children[1].textContent=p.cpu;r.children[2].textContent=p.mem;r.children[3].onclick=function(){quitProcess(p.pid,p.name);};pl.appendChild(r);});}
   drawChart('net-chart', d.net_hist, cssColor('--g','#5dd879'), null, fmtBytesPerSec);
 } else if(view==='fan'){
   updateSetup(d);
   var note=document.getElementById('ctl-note');
   if(d.fan_control_supported){
"##;

/// Part 37 of the dashboard page.
pub const PAGE_37: &'static str = r##"     var fanCount=Number(d.fan_count||0),controllableCount=Number(d.controllable_fan_count||0);
     set('ctl-status',controllableCount>0
       ?(d.ctl_status||'')
       :(fanCount>0?(LANG==='ko'?'RPM 모니터링만 가능':'RPM monitoring only'):(LANG==='ko'?'팬 센서 없음':'No fan sensors')));
     updateProfileStrip(d);
     updateFanApplyStatus(d);
     if(note){
     // A command failure (e.g. a running daemon too old to understand a
     // command we just sent it) used to be silently swallowed — ctl-status
     // only ever shows the daemon's own global mode string, never a
     // per-command result. Surface it here instead, taking priority over
     // the "install the daemon" tip.
     var isErr=d.last_cmd_status&&/error|invalid|unknown|failed|needs root|needs at least/i.test(d.last_cmd_status);
     if(isErr){
       note.style.display='';
       // "unknown command" specifically means the running daemon predates
       // whatever command we just sent it — the fix is a daemon update, not
       // a config change, so offer it as a one-click button right here
       // instead of pointing at a menu item the user has to go find.
       var isUnknownCmd=/unknown command/i.test(d.last_cmd_status);
       note.innerHTML='';
       var msg=document.createElement('span');
       msg.textContent=(LANG==='ko'?'오류: ':'Error: ')+d.last_cmd_status;
       note.appendChild(msg);
       if(isUnknownCmd){
         note.appendChild(document.createElement('br'));
         note.appendChild(fanControlSetupButton(LANG==='ko'?'팬 제어 재설치':'Reinstall Fan Control'));
       }
     } else if(d.daemon_update_needed){
       note.style.display='';
       note.textContent=LANG==='ko'
         ?'설치된 팬 제어 데몬이 오래되었습니다. 위의 재설치 버튼을 사용하세요.'
         :'The fan-control daemon is out of date. Use the reinstall button above.';
     } else if(!d.daemon_running){
       note.style.display='';
       note.textContent=LANG==='ko'
         ?'팬 제어를 유지하려면 위의 설정 버튼에서 최초 1회 승인이 필요합니다.'
         :'Persistent fan control needs one initial approval from the setup button above.';
     } else {
       note.style.display='none';
     }
     }
     renderFanCards(d.fans,d.can_control);
     updateFanEmptyState(d);
   } else {
     set('ctl-status',LANG==='ko'?'사용 불가':'unavailable');
     updateProfileStrip(d);
     updateFanApplyStatus(d);
"##;

/// Part 38 of the dashboard page.
pub const PAGE_38: &'static str = r##"     if(note){note.style.display='';note.textContent=LANG==='ko'?'이 시스템에서는 팬 제어를 사용할 수 없습니다. 감지 가능한 RPM만 표시합니다.':'Fan control is unavailable on this system; only detected RPM is shown.';}
     var fc=document.getElementById('fan-cards');if(fc)fc.innerHTML='';
     updateFanEmptyState(d);
   }
   if(SHOW_CURVE_EDITOR==='1'&&d.can_control){
     var ces=document.getElementById('curve-editor-section');
     if(ces)ces.style.display='';
     if(d.curve_points){
       CURVE_POINTS_SAVED=d.curve_points.map(function(p){return p.slice();});
       if(CURVE_POINTS===null)CURVE_POINTS=CURVE_POINTS_SAVED.map(function(p){return p.slice();});
     }
     initCurveEditor();drawCurveEditor();syncCurvePointInputs();
   } else {
     var ces2=document.getElementById('curve-editor-section');if(ces2)ces2.style.display='none';
   }
 }
}};
applyPendingUpdate();
var WEBVIEW_READY_SENT=false;
function sendWebviewReady(){
  if(!WEBVIEW_READY_SENT&&window.ipc){
    WEBVIEW_READY_SENT=true;
    window.ipc.postMessage('ready');
  }
}
sendWebviewReady();
// A prewarmed macOS WebView can expose its IPC bridge a frame after the page
// script runs. One retry makes the ready handshake deterministic without
// touching the sensor path or delaying the first render.
setTimeout(sendWebviewReady,250);
// One card per controllable fan — independent Auto/Manual toggle + a slider
// bounded to that fan's own min/max RPM (not a 0-100% abstraction), so you
// can pin e.g. just the left fan while the right one keeps following the
// curve. Built once per fan id and updated in place on every tick, so an
// in-progress slider drag never gets clobbered by the next poll.
function renderFanCards(fans,enabled){
  var container=document.getElementById('fan-cards');
  if(!container)return;
  var seen={};
  (fans||[]).forEach(function(f){
    if(!f.controllable)return;
    seen[f.id]=true;
    var card=container.querySelector('[data-fan-id="'+f.id+'"]');
    if(!card){
      card=document.createElement('div');
      card.className='fan-card';
      card.setAttribute('data-fan-id',f.id);
      card.innerHTML='<div class="fan-card-head"><span class="fn"></span><span class="fv"></span></div>'+
        '<div class="fan-bar"><i></i><span class="fan-target-marker"></span></div>'+
        '<div class="fan-bottom"><span class="fan-rpm-text"></span><span class="fan-seg"><button class="fa-auto"></button><button class="fa-manual"></button></span></div>'+
"##;

/// Part 39 of the dashboard page.
pub const PAGE_39: &'static str = r##"        '<div class="fan-rpm-row inactive"><span class="fa-min"></span><input type="range"><input type="number" class="fa-num" inputmode="numeric"><span class="fa-max"></span></div>';
      var btnAuto=card.querySelector('.fa-auto');
      var btnManual=card.querySelector('.fa-manual');
      btnAuto.textContent=LANG==='ko'?'자동':'Auto';
      btnManual.textContent=LANG==='ko'?'사용자 지정…':'Custom…';
      btnAuto.onclick=function(){
        if(!markFanPending(card,'auto'))return;
        window.ipc.postMessage('cmd:fanauto:'+f.id);
      };
      btnManual.onclick=function(){
        if(!markFanPending(card,'manual'))return;
        // Pin right where the fan already is instead of jumping to a
        // default — read the live % off the card, not this closure's
        // (potentially stale, first-render-time) copy of `f`.
        var curPct=Math.round(parseFloat(card.dataset.curPct||'50'));
        window.ipc.postMessage('cmd:fanhold:'+f.id+':'+curPct);
        card.querySelector('.fan-rpm-row').classList.remove('inactive');
      };
      var slider=card.querySelector('input[type=range]');
      var numInput=card.querySelector('.fa-num');
      // A drag gesture is too coarse for "I want exactly 2500 RPM" — the
      // number box lets you type it, while the slider stays for quick
      // eyeballed adjustments. Both funnel through `commitFanValue` so they
      // can never send conflicting commands for the same drag/keystroke.
      function commitFanValue(v){
        var min=parseInt(slider.min,10),max=parseInt(slider.max,10);
        v=Math.max(min,Math.min(max,v));
        slider.value=v;
        numInput.value=v;
        var useRpm=slider.dataset.useRpm==='1';
        card.querySelector('.fv').textContent=useRpm?(v+' RPM'):(v+'%');
        var span=max-min;
        var pct=useRpm?(span>0?Math.round((v-min)/span*100):0):v;
        markFanPending(card,'manual',true);
        window.ipc.postMessage('cmd:fanhold:'+f.id+':'+Math.max(0,Math.min(100,pct)));
      }
      slider.addEventListener('input',function(){
        var v=parseInt(slider.value,10);
        numInput.value=v;
        var useRpm=slider.dataset.useRpm==='1';
        card.querySelector('.fv').textContent=useRpm?(v+' RPM'):(v+'%');
      });
      slider.addEventListener('change',function(){
        commitFanValue(parseInt(slider.value,10));
      });
      numInput.addEventListener('input',function(){
        var v=parseInt(numInput.value,10);
        if(isNaN(v))return;
"##;

/// Part 40 of the dashboard page.
pub const PAGE_40: &'static str = r##"        slider.value=Math.max(parseInt(slider.min,10),Math.min(parseInt(slider.max,10),v));
        var useRpm=slider.dataset.useRpm==='1';
        card.querySelector('.fv').textContent=useRpm?(v+' RPM'):(v+'%');
      });
      numInput.addEventListener('change',function(){
        var v=parseInt(numInput.value,10);
        if(!isNaN(v))commitFanValue(v);
      });
      numInput.addEventListener('keydown',function(e){
        if(e.key==='Enter')numInput.blur();
      });
      container.appendChild(card);
    }
    var manual=!!f.manual;
    card.dataset.controlEnabled=enabled?'1':'0';
    var pendingMode=card.dataset.pendingMode||'';
    if(pendingMode){
      var pendingConfirmed=(pendingMode==='manual'&&manual)||(pendingMode==='auto'&&!manual);
      var pendingExpired=Date.now()-parseInt(card.dataset.pendingAt||'0',10)>5000;
      if(pendingConfirmed||pendingExpired){
        delete card.dataset.pendingMode;
        delete card.dataset.pendingAt;
        pendingMode='';
      }
    }
    var displayManual=pendingMode?pendingMode==='manual':manual;
    var useRpm=f.max_rpm>0;
    var targetPct=f.override_pct!=null?f.override_pct:f.pct;
    card.dataset.curPct=targetPct;
    card.querySelector('.fn').textContent=f.l;
    card.querySelector('.fan-bar i').style.width=Math.max(0,Math.min(100,f.pct))+'%';
    var appliedTarget=f.target_pct==null?null:Number(f.target_pct);
    var targetRpm=f.target_rpm==null?null:Number(f.target_rpm);
    var tolerance=useRpm?Math.max(100,Math.round(f.max_rpm*0.025)):3;
    var daemonReadback=f.readback_status||'';
    var stale=daemonReadback==='stale';
    var ramping=daemonReadback==='adjusting'||(!daemonReadback&&targetRpm!=null&&Math.abs(f.cur_rpm-targetRpm)>tolerance);
    var marker=card.querySelector('.fan-target-marker');
    if(marker){
      marker.style.display=appliedTarget==null?'none':'block';
      if(appliedTarget!=null)marker.style.left=Math.max(0,Math.min(100,appliedTarget))+'%';
    }
    card.classList.toggle('ramping',ramping);
    card.classList.toggle('stale',stale);
    card.querySelector('.fan-rpm-text').textContent=useRpm
      ?(targetRpm!=null?(f.cur_rpm+' RPM → '+targetRpm+' RPM'):(f.min_rpm+' — '+f.cur_rpm+' — '+f.max_rpm))
      :(Math.round(f.pct)+'%');
    card.classList.toggle('pending',!!pendingMode);
    card.querySelector('.fa-auto').disabled=!enabled||!!pendingMode;
    card.querySelector('.fa-manual').disabled=!enabled||!!pendingMode;
"##;

/// Part 41 of the dashboard page.
pub const PAGE_41: &'static str = r##"    card.querySelector('.fa-auto').classList.toggle('active',!displayManual);
    card.querySelector('.fa-manual').classList.toggle('active',displayManual);
    card.querySelector('.fa-min').textContent=useRpm?f.min_rpm:'0%';
    card.querySelector('.fa-max').textContent=useRpm?f.max_rpm:'100%';
    // Always occupies the same layout space (opacity/pointer-events toggle
    // only, never display) — hiding it outright used to change the
    // popover's total content height, which used to trigger a full window
    // resize and made every chart below visibly redraw at a new width,
    // which read as "the graphs randomly changed."
    card.querySelector('.fan-rpm-row').classList.toggle('inactive', !displayManual);
    var slider=card.querySelector('input[type=range]');
    var numInput=card.querySelector('.fa-num');
    slider.disabled=!enabled||!!pendingMode;
    numInput.disabled=!enabled||!!pendingMode;
    slider.dataset.useRpm=useRpm?'1':'0';
    slider.min=numInput.min=useRpm?f.min_rpm:0;
    slider.max=numInput.max=useRpm?Math.max(f.max_rpm,f.min_rpm+1):100;
    // Skip the live-tick overwrite while the user is mid-edit in either
    // control — without this, typing into the number box would get
    // clobbered by the next 1s poll before the "change" event even fires.
    if(slider!==document.activeElement&&numInput!==document.activeElement){
      var editRpm=useRpm?Math.round(f.min_rpm+(f.max_rpm-f.min_rpm)*targetPct/100):Math.round(targetPct);
      slider.value=editRpm;
      numInput.value=editRpm;
      var shownTarget=appliedTarget==null?targetPct:appliedTarget;
      card.querySelector('.fv').textContent=appliedTarget!=null
        ?(Math.round(shownTarget)+'% · '+(stale?(LANG==='ko'?'응답 없음':'not responding'):(ramping?(LANG==='ko'?'조정 중':'adjusting'):(LANG==='ko'?'적용됨':'applied'))))
        :(displayManual?(useRpm?(editRpm+' RPM'):(targetPct+'%')):(Math.round(f.pct)+'%'));
    }
  });
  Array.prototype.slice.call(container.children).forEach(function(c){
    if(!seen[c.getAttribute('data-fan-id')])c.remove();
  });
}
function markFanPending(card,mode,refresh){
  if(card.dataset.controlEnabled!=='1')return false;
  if(card.dataset.pendingMode&&!refresh)return false;
  card.dataset.pendingMode=mode;
  card.dataset.pendingAt=Date.now();
  card.classList.add('pending');
  card.querySelector('.fa-auto').disabled=true;
  card.querySelector('.fa-manual').disabled=true;
  card.querySelector('.fa-auto').classList.toggle('active',mode==='auto');
"##;

/// Part 42 of the dashboard page.
pub const PAGE_42: &'static str = r##"  card.querySelector('.fa-manual').classList.toggle('active',mode==='manual');
  card.querySelector('.fan-rpm-row').classList.toggle('inactive',mode!=='manual');
  return true;
}
function fanControlSetupButton(label){
  var fixBtn=document.createElement('button');
  fixBtn.className='note-fix-btn';
  // The button is rebuilt fresh every tick, so a plain per-click `disabled`
  // would disappear on the next render. Keep the pending state outside the
  // node while the macOS admin-password prompt is in flight.
  if(FAN_CONTROL_FIX_PENDING){
    fixBtn.disabled=true;
    fixBtn.textContent=LANG==='ko'?'설치 중…':'Installing…';
  } else {
    fixBtn.textContent=label;
    fixBtn.onclick=function(){startFanControlSetup(fixBtn);};
  }
  return fixBtn;
}
function startFanControlSetup(btn){
  if(FAN_CONTROL_FIX_PENDING)return;
  FAN_CONTROL_FIX_REVISION=Number((window.__pf_pending||{}).fan_control_install_revision||0);
  FAN_CONTROL_FIX_PENDING=true;
  if(btn){
    btn.disabled=true;
    setButtonLabel(btn,LANG==='ko'?'설치 중…':'Installing…');
  }
  var top=document.getElementById('setup-fan');
  if(top&&top!==btn){
    top.disabled=true;
    setButtonLabel(top,LANG==='ko'?'설치 중…':'Installing…');
  }
  window.ipc.postMessage('cmd:enablefancontrol');
  // Native setup publishes a completion revision and immediately refreshes
  // this payload. Keep a watchdog only for a crashed native worker; never
  // unlock while the installer still reports itself in flight.
  setTimeout(function(){
    var current=window.__pf_pending||{};
    if(!current.fan_control_installing)FAN_CONTROL_FIX_PENDING=false;
  },60000);
}
function runFanDiagnostics(btn){
  if(FAN_DIAGNOSTIC_PENDING)return;
  FAN_DIAGNOSTIC_PENDING=true;
  FAN_DIAGNOSTIC_STARTED_AT=Math.floor(Date.now()/1000);
  if(btn){
    btn.disabled=true;
    btn.textContent=LANG==='ko'?'진단 중…':'Diagnosing…';
  }
  window.ipc.postMessage('cmd:diagnosefan');
  setTimeout(function(){
    FAN_DIAGNOSTIC_PENDING=false;
    var current=document.getElementById('fan-diagnostic-button');
    if(current){
      current.disabled=false;
      current.textContent=LANG==='ko'?'진단 실행':'Run Diagnostics';
    }
  },10000);
}
function renderFanActionLog(d){
  var list=document.getElementById('fan-action-log');
  var button=document.getElementById('fan-diagnostic-button');
  var entries=Array.isArray(d.fan_action_log)?d.fan_action_log:[];
  var diagnosticFinished=entries.some(function(entry){
"##;

/// Part 43 of the dashboard page.
pub const PAGE_43: &'static str = r##"    return entry&&entry.action==='diagnostic'&&Number(entry.at)>=FAN_DIAGNOSTIC_STARTED_AT-1;
  });
  if(FAN_DIAGNOSTIC_PENDING&&diagnosticFinished)FAN_DIAGNOSTIC_PENDING=false;
  if(button){
    button.disabled=FAN_DIAGNOSTIC_PENDING;
    button.textContent=FAN_DIAGNOSTIC_PENDING
      ?(LANG==='ko'?'진단 중…':'Diagnosing…')
      :(LANG==='ko'?'진단 실행':'Run Diagnostics');
  }
  if(!list)return;
  list.textContent='';
  if(!entries.length){
    var empty=document.createElement('div');
    empty.className='action-log-empty';
    empty.textContent=LANG==='ko'?'팬 제어 이력이 없습니다':'No fan actions yet';
    list.appendChild(empty);
    return;
  }
  entries.forEach(function(entry){
    if(!entry||typeof entry!=='object')return;
    var row=document.createElement('div');
    row.className='action-log-row '+(entry.ok?'ok':'warn');
    var time=document.createElement('div');
    time.className='action-log-time';
    var date=new Date(Number(entry.at||0)*1000);
    time.textContent=isNaN(date.getTime())?'—':date.toLocaleTimeString([], {hour:'2-digit',minute:'2-digit'});
    var main=document.createElement('div');
    main.className='action-log-main';
    var action=document.createElement('div');
    action.className='action-log-action';
    action.textContent=String(entry.action||'—');
    var result=document.createElement('div');
    result.className='action-log-result';
    result.textContent=String(entry.result||'—');
    main.appendChild(action);
    main.appendChild(result);
    row.appendChild(time);
    row.appendChild(main);
    list.appendChild(row);
  });
}
function startAppUpdate(mode,btn){
  // The compact setup menu is available from the fan view, but update
  // progress and the final result live in Settings. Navigate first so a
  // successful click always has visible feedback instead of looking inert.
  if(RAIL_VIEW!=='settings')setRailView('settings');
  if(APP_UPDATE_CHECK_PENDING)return;
  APP_UPDATE_CHECK_PENDING=true;
  if(btn){
    if(!btn.dataset.defaultLabel){
      var current=btn.querySelector('span');
      btn.dataset.defaultLabel=current?current.textContent:btn.textContent;
    }
    btn.disabled=true;
    setButtonLabel(btn,mode==='install'
      ?(LANG==='ko'?'설치 준비 중…':'Preparing…')
      :(LANG==='ko'?'확인 중…':'Checking…'));
  }
  renderUpdateStatus({
    current:(window.__pf_pending&&window.__pf_pending.app_version)||'',
    phase:'checking',
    message:mode==='install'
"##;

/// Part 44 of the dashboard page.
pub const PAGE_44: &'static str = r##"      ?(LANG==='ko'?'설치할 서명 릴리스를 확인 중입니다.':'Checking the signed release before installation.')
      :''
  });
  window.ipc.postMessage(mode==='install'?'installupdate':'checkupdates');
  setTimeout(function(){
    if(APP_UPDATE_CHECK_PENDING){
      APP_UPDATE_CHECK_PENDING=false;
      if(btn){
        btn.disabled=false;
        setButtonLabel(btn,btn.dataset.defaultLabel||(mode==='install'
          ?(LANG==='ko'?'지금 업데이트':'Install Update')
          :(LANG==='ko'?'업데이트 확인':'Check for Updates')));
      }
    }
  },120000);
}
function checkAppUpdates(btn){startAppUpdate('check',btn);}
function installAppUpdate(btn){startAppUpdate('install',btn);}
function toggleStartupItem(btn){
  if(LOGIN_ITEM_TOGGLE_PENDING||!window.__pf_pending||!window.__pf_pending.login_item_supported)return;
  LOGIN_ITEM_TOGGLE_PENDING=true;
  if(btn){
    if(!btn.dataset.defaultLabel){
      btn.dataset.defaultLabel=btn.textContent;
    }
    btn.disabled=true;
    btn.textContent=LANG==='ko'?'처리 중…':'Updating…';
    btn.classList.add('active');
  }
  window.ipc.postMessage('toggle-login-item');
  setTimeout(function(){
    LOGIN_ITEM_TOGGLE_PENDING=false;
    if(btn){
      btn.classList.remove('active');
      btn.disabled=false;
      if(window.__pf&&window.__pf_pending)updateSetup(window.__pf_pending);
    }
  },2500);
}
function notificationThreshold(){
  var input=document.getElementById('notification-temp-threshold');
  var value=input?Math.round(Number(input.value||85)):85;
  return Math.max(50,Math.min(110,isFinite(value)?value:85));
}
function toggleTemperatureNotification(enabled){
  var input=document.getElementById('notification-temp-threshold');
  if(input)input.disabled=!enabled;
  window.ipc.postMessage('notifications:temperature:'+(enabled?notificationThreshold():'off'));
}
function changeTemperatureNotification(){
  var toggle=document.getElementById('notification-temp-toggle');
  var input=document.getElementById('notification-temp-threshold');
  var value=notificationThreshold();
  if(input)input.value=String(value);
  if(toggle&&toggle.checked)window.ipc.postMessage('notifications:temperature:'+value);
}
function setNotificationBoolean(kind,enabled){
  window.ipc.postMessage('notifications:'+kind+':'+(enabled?'1':'0'));
}
function updateNotificationSettings(d){
  var settings=d.notifications||{};
  var threshold=Number(settings.temperature_c);
  var temperatureEnabled=isFinite(threshold)&&threshold>=50&&threshold<=110;
"##;

/// Part 45 of the dashboard page.
pub const PAGE_45: &'static str = r##"  var temperatureToggle=document.getElementById('notification-temp-toggle');
  var temperatureInput=document.getElementById('notification-temp-threshold');
  if(temperatureToggle)temperatureToggle.checked=temperatureEnabled;
  if(temperatureInput){
    temperatureInput.disabled=!temperatureEnabled;
    if(temperatureEnabled)temperatureInput.value=String(Math.round(threshold));
  }
  var fanToggle=document.getElementById('notification-fan-toggle');
  var updateToggle=document.getElementById('notification-update-toggle');
  if(fanToggle)fanToggle.checked=settings.fan_failures!==false;
  if(updateToggle)updateToggle.checked=settings.updates!==false;
  var enabled=(temperatureEnabled?1:0)+(settings.fan_failures!==false?1:0)+(settings.updates!==false?1:0);
  setPanelPill('notification-pill',LANG==='ko'?(enabled+'개 켬'):(enabled+' on'),enabled?'info':'');
}
function setSetupMenuOpen(open){
  var menu=document.getElementById('setup-menu');
  var more=document.getElementById('setup-more');
  if(menu)menu.classList.toggle('show',!!open);
  if(more)more.setAttribute('aria-expanded',open?'true':'false');
}
function closeSetupMenu(returnFocus){
  setSetupMenuOpen(false);
  if(returnFocus){
    var more=document.getElementById('setup-more');
    if(more)more.focus();
  }
}
function toggleSetupMenu(ev){
  if(ev&&ev.stopPropagation)ev.stopPropagation();
  var menu=document.getElementById('setup-menu');
  if(menu)setSetupMenuOpen(!menu.classList.contains('show'));
}
function setupMenuItems(){
  return Array.prototype.slice.call(document.querySelectorAll('.setup-menu-item')).filter(function(item){return !item.disabled;});
}
function focusSetupMenuItem(index){
  var items=setupMenuItems();
  if(!items.length)return;
  items[(index+items.length)%items.length].focus();
}
function handleSetupMoreKey(ev){
  if(ev.key==='ArrowDown'||ev.key==='Enter'||ev.key===' '){
    ev.preventDefault();
    setSetupMenuOpen(true);
    focusSetupMenuItem(0);
  } else if(ev.key==='Escape'){
    closeSetupMenu();
  }
}
function handleSetupMenuKey(ev){
  var items=setupMenuItems();
  var idx=items.indexOf(document.activeElement);
  if(ev.key==='Escape'){
    ev.preventDefault();
    closeSetupMenu(true);
  } else if(ev.key==='ArrowDown'){
    ev.preventDefault();
    focusSetupMenuItem(idx+1);
  } else if(ev.key==='ArrowUp'){
    ev.preventDefault();
    focusSetupMenuItem(idx-1);
  } else if(ev.key==='Home'){
    ev.preventDefault();
    focusSetupMenuItem(0);
  } else if(ev.key==='End'){
"##;

/// Part 46 of the dashboard page.
pub const PAGE_46: &'static str = r##"    ev.preventDefault();
    focusSetupMenuItem(items.length-1);
  }
}
document.addEventListener('click',function(ev){
  var wrap=document.querySelector('.setup-menu-wrap');
  if(wrap&&!wrap.contains(ev.target))closeSetupMenu();
});
// Detail-Window-only visual fan curve editor. `CURVE_POINTS` is the working
// copy the user is editing; `CURVE_POINTS_SAVED` mirrors whatever's actually
// saved server-side, refreshed every tick but never used to clobber
// `CURVE_POINTS` mid-edit — only `resetCurve()` pulls from it explicitly.
var CURVE_POINTS=null, CURVE_POINTS_SAVED=null, CURVE_DRAG=-1, CURVE_LAST=-1;
var CURVE_TMIN=0, CURVE_TMAX=100;
function curveScale(cv){
  var w=cv.clientWidth||300;
  return {w:w, h:120, px:function(t){return (t-CURVE_TMIN)/(CURVE_TMAX-CURVE_TMIN)*w;}, py:function(d){return 120-(d/100)*120;}};
}
function drawCurveEditor(){
  var cv=document.getElementById('curve-canvas');
  if(!cv||!CURVE_POINTS)return;
  var s=curveScale(cv);
  if(cv.width!==s.w)cv.width=s.w;
  if(cv.height!==s.h)cv.height=s.h;
  var ctx=cv.getContext('2d');
  ctx.clearRect(0,0,s.w,s.h);
  ctx.strokeStyle='rgba(127,136,150,.15)';ctx.lineWidth=1;
  [25,50,75].forEach(function(g){var y=s.py(g);ctx.beginPath();ctx.moveTo(0,y);ctx.lineTo(s.w,y);ctx.stroke();});
  var sorted=CURVE_POINTS.slice().sort(function(a,b){return a[0]-b[0];});
  ctx.beginPath();
  sorted.forEach(function(p,i){var x=s.px(p[0]),y=s.py(p[1]);if(i===0)ctx.moveTo(x,y);else ctx.lineTo(x,y);});
  ctx.strokeStyle=cssColor('--accent','#6ea8ff');ctx.lineWidth=1.5;ctx.stroke();
  sorted.forEach(function(p){
    ctx.beginPath();ctx.arc(s.px(p[0]),s.py(p[1]),4,0,Math.PI*2);
    ctx.fillStyle=cssColor('--accent','#6ea8ff');ctx.fill();
  });
}
function curveEventToPoint(cv,e){
  var rect=cv.getBoundingClientRect();
  var t=CURVE_TMIN+((e.clientX-rect.left)/rect.width)*(CURVE_TMAX-CURVE_TMIN);
  var d=100-((e.clientY-rect.top)/rect.height)*100;
  return [Math.max(CURVE_TMIN,Math.min(CURVE_TMAX,Math.round(t))),Math.max(0,Math.min(100,Math.round(d)))];
}
function findNearestCurvePoint(cv,e){
  var rect=cv.getBoundingClientRect();
  var mx=e.clientX-rect.left, my=e.clientY-rect.top;
  var best=-1,bestDist=14;
  CURVE_POINTS.forEach(function(p,i){
    var x=(p[0]-CURVE_TMIN)/(CURVE_TMAX-CURVE_TMIN)*rect.width;
    var y=(1-p[1]/100)*rect.height;
    var dist=Math.sqrt((x-mx)*(x-mx)+(y-my)*(y-my));
    if(dist<bestDist){bestDist=dist;best=i;}
  });
  return best;
}
"##;

/// Part 47 of the dashboard page.
pub const PAGE_47: &'static str = r##"// Dragging a point on the canvas is inherently approximate (mouse pixels,
// not degrees/percent) — these two number inputs mirror whichever point was
// last touched so an exact temp/duty pair can be typed instead of dragged.
function syncCurvePointInputs(){
  var row=document.getElementById('curve-point-row');
  var tIn=document.getElementById('cp-temp'), dIn=document.getElementById('cp-duty');
  if(!row||!tIn||!dIn)return;
  if(!CURVE_POINTS||CURVE_LAST<0||CURVE_LAST>=CURVE_POINTS.length){
    row.style.display='none';
    return;
  }
  row.style.display='';
  // Don't clobber an in-progress keystroke with the same values it already has.
  if(tIn!==document.activeElement)tIn.value=CURVE_POINTS[CURVE_LAST][0];
  if(dIn!==document.activeElement)dIn.value=CURVE_POINTS[CURVE_LAST][1];
}
function commitCurvePointInput(){
  if(!CURVE_POINTS||CURVE_LAST<0||CURVE_LAST>=CURVE_POINTS.length)return;
  var tIn=document.getElementById('cp-temp'), dIn=document.getElementById('cp-duty');
  var t=parseInt(tIn.value,10), d=parseInt(dIn.value,10);
  if(!isNaN(t))CURVE_POINTS[CURVE_LAST][0]=Math.max(CURVE_TMIN,Math.min(CURVE_TMAX,t));
  if(!isNaN(d))CURVE_POINTS[CURVE_LAST][1]=Math.max(0,Math.min(100,d));
  drawCurveEditor();
  syncCurvePointInputs();
}
function initCurveEditor(){
  var cv=document.getElementById('curve-canvas');
  if(!cv||cv.dataset.bound)return;
  cv.dataset.bound='1';
  cv.addEventListener('mousedown',function(e){
    var idx=findNearestCurvePoint(cv,e);
    if(idx===-1&&CURVE_POINTS.length<8){
      CURVE_POINTS.push(curveEventToPoint(cv,e));
      idx=CURVE_POINTS.length-1;
      drawCurveEditor();
    }
    CURVE_DRAG=idx;CURVE_LAST=idx;
    syncCurvePointInputs();
  });
  cv.addEventListener('mousemove',function(e){
    if(CURVE_DRAG<0)return;
    CURVE_POINTS[CURVE_DRAG]=curveEventToPoint(cv,e);
    drawCurveEditor();
    syncCurvePointInputs();
  });
  window.addEventListener('mouseup',function(){CURVE_DRAG=-1;});
  var tIn=document.getElementById('cp-temp'), dIn=document.getElementById('cp-duty');
  [tIn,dIn].forEach(function(inp){
    if(!inp)return;
    inp.addEventListener('change',commitCurvePointInput);
    inp.addEventListener('keydown',function(e){if(e.key==='Enter')inp.blur();});
  });
}
function resetCurve(){
  if(CURVE_POINTS_SAVED)CURVE_POINTS=CURVE_POINTS_SAVED.map(function(p){return p.slice();});
  CURVE_LAST=-1;
  drawCurveEditor();
  syncCurvePointInputs();
}
function removeCurvePoint(){
"##;

/// Part 48 of the dashboard page.
pub const PAGE_48: &'static str = r##"  if(!CURVE_POINTS||CURVE_POINTS.length<=2)return;
  var idx=(CURVE_LAST>=0&&CURVE_LAST<CURVE_POINTS.length)?CURVE_LAST:CURVE_POINTS.length-1;
  CURVE_POINTS.splice(idx,1);
  CURVE_LAST=-1;
  drawCurveEditor();
  syncCurvePointInputs();
}
function saveCurve(){
  if(!CURVE_POINTS||CURVE_POINTS.length<2)return;
  window.ipc.postMessage('savecurve:'+JSON.stringify(CURVE_POINTS));
}
function focusFanControl(){
  var el=document.getElementById('fan-control-section');
  if(el){
    el.scrollIntoView({block:'nearest',behavior:'auto'});
    el.classList.remove('focus-pulse');
    void el.offsetWidth;
    el.classList.add('focus-pulse');
    setTimeout(function(){el.classList.remove('focus-pulse');},900);
  }
}
function setChartRange(r){
  document.querySelectorAll('.range-tabs .range-tab').forEach(function(b){var active=b.dataset.range===r;b.classList.toggle('active',active);b.setAttribute('aria-pressed',active?'true':'false');});
  window.ipc.postMessage('range:'+r);
}
function setProfile(profile){
  if(!beginFanControl('profile',profile))return;
  window.ipc.postMessage('cmd:profile:'+profile);
}
function setAuto(){
  if(!beginFanControl('auto',''))return;
  window.ipc.postMessage('cmd:auto');
}
function beginFanControl(mode,profile){
  if(FAN_CONTROL_PENDING)return false;
  var current=window.__pf_pending||{};
  var wantedProfile=profile||'';
  if(current.active_control_mode===mode&&(mode!=='profile'||current.active_profile===wantedProfile))return false;
  FAN_CONTROL_RESULT=null;
  FAN_CONTROL_PENDING={mode:mode,profile:wantedProfile,startedAt:Date.now(),statusBefore:current.last_cmd_status||'',revisionBefore:Number(current.applied_control_revision||0)};
  var snapshot=window.__pf_pending||{can_control:true,active_control_mode:'',active_profile:'',last_cmd_status:''};
  updateProfileStrip(snapshot);
  updateFanApplyStatus(snapshot);
  return true;
}
function fanControlStatusFailed(status){
  return /error|failed|invalid|cancel|unavailable|not ready/i.test(status||'');
}
function profileDutyAt(points,temp){
  if(!points||!points.length)return 0;
  if(temp<=points[0][0])return points[0][1];
  for(var i=1;i<points.length;i++){
    if(temp<=points[i][0]){
      var left=points[i-1],right=points[i];
      var ratio=(temp-left[0])/(right[0]-left[0]);
      return left[1]+(right[1]-left[1])*ratio;
    }
  }
  return points[points.length-1][1];
}
function renderProfileGuide(mode,profile){
  var root=document.getElementById('profile-guide');
"##;

/// Part 49 of the dashboard page.
pub const PAGE_49: &'static str = r##"  var title=document.getElementById('profile-guide-title');
  var detail=document.getElementById('profile-guide-detail');
  var bars=document.querySelectorAll('#profile-preview-bars span');
  if(!root||!title||!detail)return;
  var guides={
    silent:{en:['Quiet','Lowest noise; allows warmer temperatures.'],ko:['저소음','소음을 줄이고 더 높은 온도를 허용합니다.'],curve:[[30,0],[50,20],[70,40],[85,70]]},
    balanced:{en:['Balanced','Default balance of noise and cooling.'],ko:['균형','소음과 냉각의 기본 균형입니다.'],curve:[[30,15],[50,25],[70,45],[85,75],[90,100]]},
    gaming:{en:['Gaming','Ramps earlier for sustained workloads.'],ko:['게임','지속 부하에 대비해 더 일찍 회전합니다.'],curve:[[30,30],[50,50],[70,75],[85,100]]},
    performance:{en:['Performance','Aggressive cooling for heavy work.'],ko:['고성능','무거운 작업을 위해 적극적으로 냉각합니다.'],curve:[[30,40],[50,60],[75,90],[85,100]]},
    maximum:{en:['Maximum','Fans stay at 100%; loudest and coolest.'],ko:['최대','팬을 100%로 유지합니다. 가장 크고 시원합니다.'],curve:[[0,100],[100,100]]}
  };
  var isAuto=mode!=='profile'||!guides[profile];
  var guide=isAuto
    ?{en:['macOS Auto','macOS manages fan speed for the current workload.'],ko:['macOS 자동','현재 작업에 맞춰 macOS가 팬 속도를 관리합니다.'],curve:null}
    :guides[profile];
  var copy=LANG==='ko'?guide.ko:guide.en;
  title.textContent=copy[0];
  detail.textContent=copy[1];
  root.dataset.mode=isAuto?'auto':profile;
  var temps=[30,50,70,85,90];
  Array.prototype.slice.call(bars).forEach(function(bar,index){
    var duty=isAuto?[18,30,46,68,88][index]:profileDutyAt(guide.curve,temps[index]);
    bar.style.height=Math.max(2,Math.round(duty*.26))+'px';
  });
}
function updateProfileStrip(d){
  var strip=document.getElementById('profile-strip');
  if(!strip)return;
  // A generic control path is not enough to enable profile actions: the
  // current machine must expose at least one fan that accepts writes.
  var enabled=!!d.can_control&&Number(d.controllable_fan_count||0)>0;
  var activeMode=d.active_control_mode||'';
  var activeProfile=d.active_profile||'';
  if(FAN_CONTROL_PENDING){
    var revisionApplied=Number(d.applied_control_revision||0)>FAN_CONTROL_PENDING.revisionBefore;
    var matches=revisionApplied&&FAN_CONTROL_PENDING.mode===activeMode&&(activeMode!=='profile'||FAN_CONTROL_PENDING.profile===activeProfile);
    var status=d.last_cmd_status||'';
    var failed=status!==FAN_CONTROL_PENDING.statusBefore&&status!=='applying…'&&fanControlStatusFailed(status);
    var expired=Date.now()-FAN_CONTROL_PENDING.startedAt>8000;
"##;

/// Part 50 of the dashboard page.
pub const PAGE_50: &'static str = r##"    if(matches){
      FAN_CONTROL_RESULT={ok:true,mode:FAN_CONTROL_PENDING.mode,profile:FAN_CONTROL_PENDING.profile,at:Date.now(),message:''};
      FAN_CONTROL_PENDING=null;
    } else if(failed||expired){
      FAN_CONTROL_RESULT={ok:false,mode:FAN_CONTROL_PENDING.mode,profile:FAN_CONTROL_PENDING.profile,at:Date.now(),message:failed?status:(LANG==='ko'?'하드웨어 적용 확인 시간 초과':'hardware confirmation timed out')};
      FAN_CONTROL_PENDING=null;
    }
  }
  if(FAN_CONTROL_PENDING){
    activeMode=FAN_CONTROL_PENDING.mode;
    activeProfile=FAN_CONTROL_PENDING.profile;
  }
  if(!activeMode)activeMode='auto';
  var pending=!!FAN_CONTROL_PENDING;
  strip.classList.toggle('disabled',!enabled);
  strip.classList.toggle('pending',pending);
  strip.setAttribute('aria-busy',pending?'true':'false');
  Array.prototype.slice.call(strip.querySelectorAll('button')).forEach(function(b){
    b.disabled=!enabled||pending;
    var isAuto=b.dataset.mode==='auto'&&activeMode==='auto';
    var isProfile=b.dataset.mode==='profile'&&activeMode==='profile'&&b.dataset.profile===activeProfile;
    var selected=isAuto||isProfile;
    b.classList.toggle('active',selected);
    b.setAttribute('aria-pressed',selected?'true':'false');
  });
  renderProfileGuide(activeMode,activeProfile);
}
function fanModeLabel(mode,profile){
  if(mode==='auto')return LANG==='ko'?'macOS 자동':'macOS Auto';
  var labels=LANG==='ko'
    ?{silent:'저소음',balanced:'균형',gaming:'게임',performance:'고성능',maximum:'최대'}
    :{silent:'Silent',balanced:'Balanced',gaming:'Gaming',performance:'Performance',maximum:'Maximum'};
  return labels[profile]||profile||(LANG==='ko'?'수동':'Manual');
}
function updateFanApplyStatus(d){
  var el=document.getElementById('fan-apply-status');
  if(!el)return;
  var mode=d.active_control_mode||'',profile=d.active_profile||'';
  var tone='';
  var recentResult=FAN_CONTROL_RESULT&&Date.now()-FAN_CONTROL_RESULT.at<12000;
  var strip=document.getElementById('profile-strip');
  if(strip){
    strip.classList.toggle('confirmed',!!recentResult&&!!FAN_CONTROL_RESULT.ok);
    strip.classList.toggle('failed',!!recentResult&&!FAN_CONTROL_RESULT.ok);
  }
  if(FAN_CONTROL_PENDING){
    mode=FAN_CONTROL_PENDING.mode;profile=FAN_CONTROL_PENDING.profile;tone='pending';
  } else if(recentResult){
    mode=FAN_CONTROL_RESULT.mode;profile=FAN_CONTROL_RESULT.profile;tone=FAN_CONTROL_RESULT.ok?'ok':'error';
  }
  el.style.display=FAN_CONTROL_PENDING||recentResult?'':'none';
"##;

/// Part 51 of the dashboard page.
pub const PAGE_51: &'static str = r##"  var parts=[fanModeLabel(mode,profile)];
  if(FAN_CONTROL_PENDING)parts.push(LANG==='ko'?'적용 확인 중…':'confirming…');
  else if(recentResult){
    parts.push(FAN_CONTROL_RESULT.ok?(LANG==='ko'?'적용 완료':'applied'):(LANG==='ko'?'적용 실패':'failed'));
    if(!FAN_CONTROL_RESULT.ok&&FAN_CONTROL_RESULT.message)parts.push(FAN_CONTROL_RESULT.message);
  }
  if(mode!=='auto'&&typeof d.fan_curve_input_temp_c==='number')parts.push((LANG==='ko'?'입력 ':'input ')+Math.round(d.fan_curve_input_temp_c)+'°C');
  var targets=(d.fans||[]).filter(function(f){return typeof f.target_pct==='number';}).map(function(f){return Number(f.target_pct);}).filter(function(v){return isFinite(v);});
  if(mode!=='auto'&&targets.length)parts.push((LANG==='ko'?'목표 ':'target ')+Math.max.apply(null,targets)+'%');
  el.textContent=parts.filter(Boolean).join(' · ');
  el.className='fan-apply-status '+tone;
}
function setProcSort(s){
  var cpu=document.getElementById('ps-cpu'),mem=document.getElementById('ps-mem');
  if(cpu){cpu.classList.toggle('active',s==='cpu');cpu.setAttribute('aria-pressed',s==='cpu'?'true':'false');}
  if(mem){mem.classList.toggle('active',s==='mem');mem.setAttribute('aria-pressed',s==='mem'?'true':'false');}
  window.ipc.postMessage('procsort:'+s);
}
function setMenubarDisplay(style){
  if(!/^(number|cat|both)$/.test(style))return;
  var data=window.__pf_pending||{};
  data.menubar_display=style;
  updateMenubarDisplay(data);
  if(window.ipc)window.ipc.postMessage('display:'+style);
}
function setRunnerCharacter(character){
  if(!/^(cat|dog|rabbit|fox)$/.test(character))return;
  var data=window.__pf_pending||{};
  data.runner_character=character;
  updateMenubarDisplay(data);
  if(window.ipc)window.ipc.postMessage('character:'+character);
}
function updateMenubarDisplay(d){
  var style=/^(number|cat|both)$/.test(d.menubar_display)?d.menubar_display:'both';
  document.querySelectorAll('.display-segment button').forEach(function(button){
    var active=button.dataset.display===style;
    button.classList.toggle('active',active);
    button.setAttribute('aria-pressed',active?'true':'false');
  });
  var character=/^(cat|dog|rabbit|fox)$/.test(d.runner_character)?d.runner_character:'cat';
  document.querySelectorAll('.character-segment button').forEach(function(button){
    var active=button.dataset.character===character;
    button.classList.toggle('active',active);
    button.setAttribute('aria-pressed',active?'true':'false');
  });
"##;

/// Part 52 of the dashboard page.
pub const PAGE_52: &'static str = r##"  var pace=document.getElementById('runner-pace');
  if(!pace)return;
  var cpu=Math.max(0,Math.min(100,Number(d.runner_cpu_pct)||0));
  if(d.runner_reduce_motion){
    pace.textContent=LANG==='ko'?'동작 줄이기 · 정지 화면':'Reduce Motion · still frame';
    pace.title=LANG==='ko'
      ?'macOS 손쉬운 사용 설정에 따라 러너 애니메이션을 멈췄습니다'
      :'The runner animation is paused by the macOS accessibility setting';
    return;
  }
  var label=cpu<20
    ?(LANG==='ko'?'천천히':'Strolling')
    :(cpu<55
      ?(LANG==='ko'?'가볍게':'Jogging')
      :(cpu<80?(LANG==='ko'?'빠르게':'Running'):(LANG==='ko'?'전력 질주':'Sprinting')));
  pace.textContent='CPU '+Math.round(cpu)+'% · '+label;
  pace.title=(LANG==='ko'?'CPU 사용률에 따라 러너 속도가 바뀝니다':'Runner speed follows CPU usage')
    +' · '+Math.round(Number(d.runner_interval_ms)||0)+' ms';
}
function quitProcess(pid,name){
  var msg=LANG==='ko'?('"'+name+'" 프로세스를 종료할까요?'):('Quit "'+name+'"?');
  if(!confirm(msg))return;
  window.ipc.postMessage('killproc:'+pid);
}
function updateSetup(d){
  var setup=document.getElementById('setup-row');
  var fanView=railView()==='fan';
  var stateReady=d.fan_control_state_ready!==false;
  var supported=!!d.fan_control_supported;
  var fanCount=Number(d.fan_count||0);
  var controllableCount=Number(d.controllable_fan_count||0);
  var noFans=stateReady&&fanCount===0;
  var readOnly=stateReady&&fanCount>0&&controllableCount===0;
  var statusTitle=noFans
    ?(LANG==='ko'?'팬 감지 안 됨':'No fans detected')
    :(readOnly
      ?(LANG==='ko'?'읽기 전용 팬':'Read-only fans')
      :(LANG==='ko'?'팬 모니터링':'Fan monitoring'));
  var statusDetail=noFans
    ?(LANG==='ko'?'이 시스템에서 팬 센서를 찾지 못했습니다':'No fan sensors were reported by this system')
    :(readOnly
      ?(LANG==='ko'?'RPM 모니터링만 가능':'RPM monitoring only')
      :(LANG==='ko'?'이 시스템에서는 RPM 읽기만 지원':'This system exposes RPM monitoring only'));
  if(setup)setup.style.display=fanView?'flex':'none';
  var title=document.getElementById('setup-title');
  if(title){
    title.textContent=!stateReady
      ?(LANG==='ko'?'팬 제어 확인 중…':'Checking fan control…')
      :(!supported||noFans||readOnly
        ?statusTitle
        :(d.setup_title||'Ready'));
  }
  var detail=document.getElementById('setup-detail');
  if(detail){
    detail.textContent=!stateReady
      ?(LANG==='ko'?'데몬과 팬 상태를 확인하는 중':'Reading daemon and fan state')
      :(!supported||noFans||readOnly
        ?statusDetail
        :(d.setup_detail||('v'+(d.app_version||''))));
  }
  var dot=document.getElementById('setup-dot');
"##;

/// Part 53 of the dashboard page.
pub const PAGE_53: &'static str = r##"  if(dot)dot.className='setup-dot '+(!stateReady?'info':(noFans||readOnly||!supported?'warn':(d.setup_tone||'info')));
  var fan=document.getElementById('setup-fan');
  if(fan){
    var showSetup=stateReady&&supported&&controllableCount>0&&(d.fan_setup_needed||d.daemon_update_needed);
    fan.style.display=showSetup?'':'none';
    fan.disabled=FAN_CONTROL_FIX_PENDING||!showSetup;
    fan.title=d.daemon_update_needed
      ?(LANG==='ko'?'팬 제어 재설치':'Reinstall fan control')
      :(LANG==='ko'?'팬 제어 설정':'Set up fan control');
    fan.textContent=FAN_CONTROL_FIX_PENDING
      ?(LANG==='ko'?'설치 중…':'Installing…')
      :(d.daemon_update_needed?(LANG==='ko'?'재설치':'Reinstall'):(LANG==='ko'?'팬':'Fan'));
  }
  var more=document.getElementById('setup-more');
  if(more){
    more.disabled=!stateReady||APP_UPDATE_CHECK_PENDING;
    more.title=LANG==='ko'?'설정 작업':'Setup actions';
    more.setAttribute('aria-label',more.title);
  }
  var update=document.getElementById('setup-update');
  if(update){
    update.disabled=APP_UPDATE_CHECK_PENDING;
    update.textContent=APP_UPDATE_CHECK_PENDING?(LANG==='ko'?'업데이트 중…':'Updating…'):(LANG==='ko'?'지금 업데이트':'Update Now');
    update.title=LANG==='ko'?'최신 버전을 확인하고 바로 설치':'Check for and immediately install an app update';
  }
  var startupMenu=document.getElementById('setup-startup');
  if(startupMenu){
    startupMenu.style.display=d.login_item_supported?'':'none';
    startupMenu.disabled=LOGIN_ITEM_TOGGLE_PENDING||APP_UPDATE_CHECK_PENDING;
    startupMenu.textContent=(d.login_item_installed
      ?(LANG==='ko'?'부팅 시 자동 실행 끄기':'Disable startup')
      :(LANG==='ko'?'부팅 시 자동 실행 켜기':'Enable startup'));
  }
  var startup=document.getElementById('startup-toggle');
  if(startup){
    startup.classList.toggle('primary',!d.login_item_installed);
    startup.style.display=d.login_item_supported?'':'none';
    startup.disabled=LOGIN_ITEM_TOGGLE_PENDING||APP_UPDATE_CHECK_PENDING;
    startup.textContent=LOGIN_ITEM_TOGGLE_PENDING
      ?(LANG==='ko'?'처리 중…':'Updating…')
      :(d.login_item_installed
        ?(LANG==='ko'?'끄기':'Disable')
        :(LANG==='ko'?'켜기':'Enable'));
    startup.title=d.login_item_installed
      ?(LANG==='ko'?'부팅 시 자동 실행 끄기':'Disable startup on login')
      :(LANG==='ko'?'부팅 시 자동 실행 켜기':'Enable startup on login');
  }
}
var RAIL_NAV_READY=false;
function updateRail(d){
  if(!RAIL_NAV_READY){
    var detail=document.getElementById('railDetail');
"##;

/// Part 54 of the dashboard page.
pub const PAGE_54: &'static str = r##"    if(detail){setButtonLabel(detail,LANG==='ko'?'상태':'Status');detail.title=LANG==='ko'?'상태 요약':'Status overview';}
    var fan=document.getElementById('railFan');
    if(fan){setButtonLabel(fan,LANG==='ko'?'팬 제어':'Fans');fan.title=LANG==='ko'?'팬 제어로 이동':'Jump to fan control';}
    var settings=document.getElementById('railSettings');
    if(settings){setButtonLabel(settings,LANG==='ko'?'설정':'Settings');settings.title=LANG==='ko'?'설정 열기':'Open settings';}
    var system=document.getElementById('railSystem');
    if(system){setButtonLabel(system,LANG==='ko'?'시스템':'System');system.title=LANG==='ko'?'시스템 지표 열기':'Open system metrics';}
    RAIL_NAV_READY=true;
  }
  var view=railView();
  var nativeUpdate=d.app_update_status||{};
  var nativePhase=nativeUpdate.phase||'idle';
  var nativePending=nativePhase==='checking'||nativePhase==='downloading'||nativePhase==='queued';
  APP_UPDATE_CHECK_PENDING=nativePending;
  if(view==='settings'){
    var persisted=d.update_install_result;
    if(nativePhase!=='idle'){
      APP_UPDATE_STATUS={
        current:d.app_version||'',
        latest:nativeUpdate.latest||'',
        url:nativeUpdate.url||'',
        notes:formatReleaseNotes(nativeUpdate.notes||''),
        message:nativeUpdate.message||'',
        install_ready:!!nativeUpdate.install_ready,
        phase:nativePhase,
        persisted:false
      };
    } else if(persisted&&(!APP_UPDATE_STATUS||APP_UPDATE_STATUS.persisted)){
      var persistedKey=[persisted.status||'',persisted.version||'',persisted.updated_at_unix||''].join(':');
      if(persistedKey!==APP_PERSISTED_UPDATE_KEY){
        APP_PERSISTED_UPDATE_KEY=persistedKey;
        APP_UPDATE_STATUS={
          current:d.app_version||'',
          latest:persisted.version||'',
          install_status:persisted.status||'',
          install_message:persisted.message||'',
          persisted:true
        };
      }
    }
    if(APP_UPDATE_STATUS){APP_UPDATE_STATUS.current=d.app_version||APP_UPDATE_STATUS.current;renderUpdateStatus();}
    else renderUpdateStatus({current:d.app_version||''});
    var updCheck=document.getElementById('rail-update-check');
    if(updCheck){
      updCheck.disabled=nativePending;
      updCheck.textContent=nativePending
        ?(LANG==='ko'?'확인 중…':'Checking…')
        :(LANG==='ko'?'업데이트 확인':'Check for Updates');
    }
    var updInstall=document.getElementById('rail-update-install');
    if(updInstall&&nativePending)updInstall.disabled=true;
    updateHealthPanel(d);
"##;

/// Part 55 of the dashboard page.
pub const PAGE_55: &'static str = r##"  } else if(view==='system'){
    setPanelPill('rail-more-pill',LANG==='ko'?'실시간':'Live','info');
  }
}
function setHealthValue(id,text,tone){
  var el=document.getElementById(id);
  if(!el)return;
  el.textContent=text||'—';
  el.className='health-value '+(tone||'');
}
function tempValue(value){
  return typeof value==='number'&&isFinite(value)?Math.round(value)+'°C':'—';
}
function updateHealthPanel(d){
  var health=d.control_health||{},failsafe=!!health.failsafe_active;
  var tone=failsafe?'warn':(d.daemon_update_needed?'warn':(d.daemon_running?'ok':(d.fan_setup_needed?'warn':'info')));
  var pill=failsafe
    ?(LANG==='ko'?'OS 자동 복귀':'OS fallback')
    :(d.daemon_update_needed
    ?(LANG==='ko'?'재설치 필요':'Reinstall')
    :(d.daemon_running?(LANG==='ko'?'정상':'OK'):(d.fan_setup_needed?(LANG==='ko'?'설정 필요':'Setup'):(LANG==='ko'?'읽기 전용':'Read-only'))));
  setPanelPill('rail-settings-pill',pill,tone);
  setPanelPill('health-pill',pill,tone);
  var daemonText=d.daemon_running
    ?('v'+(d.daemon_version||'unknown')+(d.daemon_update_needed?' → v'+(d.daemon_required_version||''):''))
    :(LANG==='ko'?'실행 안 됨':'not running');
  setHealthValue('health-daemon',daemonText,d.daemon_update_needed?'warn':(d.daemon_running?'ok':'warn'));
  setHealthValue('health-helper',d.daemon_binary_installed?(d.daemon_path||'installed'):(LANG==='ko'?'설치 안 됨':'not installed'),d.daemon_binary_installed?'ok':'warn');
  setHealthValue('health-launch-daemon',d.launch_daemon_installed?(LANG==='ko'?'설치됨':'installed'):(LANG==='ko'?'설치 안 됨':'not installed'),d.launch_daemon_installed?'ok':'warn');
  setHealthValue('health-team-id',d.team_id||'—',d.team_id?'ok':'warn');
  var path=d.daemon_running
    ?(LANG==='ko'?'root 데몬':'root daemon')
    :(d.can_control?(LANG==='ko'?'앱 직접 제어':'app direct'):(d.fan_setup_needed?(LANG==='ko'?'1회 설정 필요':'setup required'):(LANG==='ko'?'읽기 전용':'read-only')));
  setHealthValue('health-control-path',path,d.daemon_running?'ok':(d.can_control?'info':'warn'));
  var last=d.last_cmd_status||d.ctl_status||'';
  var lastTone=/error|invalid|unknown|failed|needs root|needs at least/i.test(last)?'warn':'info';
  setHealthValue('health-last-command',last||'—',lastTone);
  setHealthValue('health-safety-state',
    failsafe?(LANG==='ko'?'OS 자동 제어':'OS automatic'):(LANG==='ko'?'정상':'normal'),
    failsafe?'warn':'ok');
  setHealthValue('health-fans',(d.controllable_fan_count||0)+' / '+(d.fan_count||0),d.controllable_fan_count?'ok':'info');
"##;

/// Part 56 of the dashboard page.
pub const PAGE_56: &'static str = r##"  setHealthValue('health-curve-input',tempValue(d.fan_curve_input_temp_c),'info');
  setHealthValue('health-core-hottest',tempValue(d.fan_core_hottest_temp_c),'info');
  setHealthValue('health-safety-hottest',tempValue(d.fan_safety_temp_c),d.fan_safety_temp_c>=d.fan_critical_temp_c?'warn':'info');
  setHealthValue('health-critical-limit',tempValue(d.fan_critical_temp_c),'info');
  var sensorFailures=Number(health.sensor_failure_count||0),consecutive=Number(health.consecutive_sensor_failures||0);
  setHealthValue('health-sensor-failures',sensorFailures+(consecutive?' ('+consecutive+' active)':''),consecutive?'warn':'info');
  setHealthValue('health-write-failures',String(Number(health.fan_write_failure_count||0)),health.fan_write_failure_count?'warn':'info');
  var staleFans=health.stale_fan_ids||[],readbackFailures=Number(health.fan_readback_failure_count||0);
  var readbackText=staleFans.length
    ?((LANG==='ko'?'응답 없음: ':'not responding: ')+staleFans.join(', '))
    :(d.active_control_mode==='auto'?(LANG==='ko'?'macOS 자동':'macOS automatic'):(LANG==='ko'?'정상':'verified'));
  if(readbackFailures&&!staleFans.length)readbackText+=' · '+readbackFailures;
  setHealthValue('health-readback',readbackText,staleFans.length?'warn':'ok');
  var retrySeconds=Math.max(0,Number(health.retry_after_unix||0)-Math.floor(Date.now()/1000));
  setHealthValue('health-control-retry',retrySeconds?(retrySeconds+'s'):(LANG==='ko'?'대기 없음':'ready'),retrySeconds?'warn':'info');
  setHealthValue('health-control-error',health.last_error||'—',health.last_error?'warn':'info');
  setText('fan-curve-input',tempValue(d.fan_curve_input_temp_c));
  setText('fan-safety-hottest',tempValue(d.fan_safety_temp_c));
  setText('fan-critical-limit',tempValue(d.fan_critical_temp_c));
  var approval=d.daemon_running&&!d.daemon_update_needed
    ?(LANG==='ko'?'추가 승인 없음':'no extra prompt')
    :(d.daemon_update_needed?(LANG==='ko'?'재설치 때 1회':'one prompt to reinstall'):(d.fan_setup_needed?(LANG==='ko'?'최초 설정 때 1회':'one prompt for setup'):(LANG==='ko'?'필요 없음':'not needed')));
  setHealthValue('health-approval',approval,d.daemon_running&&!d.daemon_update_needed?'ok':(d.fan_setup_needed?'warn':'info'));
  setHealthValue('health-app','v'+(d.app_version||''),'info');
  renderFanActionLog(d);
}
function updateHardwareAvailability(d){
  var fanCount=d.fan_count||0, controllable=d.controllable_fan_count||0;
  var battery=!!d.batt_present;
  var networkCount=d.network_count||0, networkActive=!!d.network_active;
"##;

/// Part 57 of the dashboard page.
pub const PAGE_57: &'static str = r##"  var card=document.getElementById('hardware-availability-card');
  if(card)card.style.display='';
  var live=(fanCount>0)||battery||networkCount>0;
  setPanelPill('hardware-pill',live?(LANG==='ko'?'실시간':'Live'):(LANG==='ko'?'요약':'Summary'),live?'ok':'info');
  setHealthValue('hardware-fans',
    controllable>0
      ?(controllable+' / '+fanCount)
      :(fanCount>0?(LANG==='ko'?'읽기 전용 팬 '+fanCount+'개':fanCount+' read-only fans'):(LANG==='ko'?'감지 안 됨':'not detected')),
    controllable>0?'ok':'info');
  setHealthValue('hardware-battery',battery?(LANG==='ko'?'감지됨':'detected'):(LANG==='ko'?'배터리 없음':'not present'),battery?'ok':'info');
  setHealthValue('hardware-network',
    networkActive
      ?(LANG==='ko'?'활성':'active')
      :(networkCount>0?(LANG==='ko'?'비활성':'idle'):(LANG==='ko'?'감지 안 됨':'not detected')),
    networkActive?'ok':'info');
}
function updateFanEmptyState(d){
  var empty=document.getElementById('fan-empty-state');
  if(!empty)return;
  var fans=d.fans||[];
  var controllable=fans.filter(function(f){return !!f.controllable;}).length;
  var show=controllable===0;
  empty.style.display=show?'':'none';
  if(show){
    var title=empty.querySelector('.empty-state-title');
    var copy=empty.querySelector('.empty-state-copy');
    var noFans=fans.length===0;
    if(title)title.textContent=noFans
      ?(LANG==='ko'?'팬 센서가 없습니다':'No fan sensors')
      :(LANG==='ko'?'읽기 전용 팬':'Read-only fans');
    if(copy)copy.textContent=noFans
      ?(LANG==='ko'?'팬 센서를 찾지 못했습니다. CPU, 메모리와 네트워크는 계속 표시되며, 온도는 지원 센서가 있을 때만 표시됩니다.':'No fan sensors were reported. CPU, memory, and network monitoring remain available; temperature appears only when a supported sensor exists.')
      :(LANG==='ko'?'팬은 감지됐지만 앱에서 직접 제어할 수 없습니다. 실시간 RPM은 계속 표시됩니다.':'Fans are detected, but this system does not expose controllable writes. Live RPM continues to be monitored.');
  }
}
function clearChart(id){
  var cv=document.getElementById(id);
  if(!cv)return;
  var ctx=cv.getContext('2d');
  if(ctx)ctx.clearRect(0,0,cv.width||0,cv.height||0);
  cv._data=[];
}
// Draws a filled area + line sparkline of `data` into the <canvas id=id>.
// `fixedMax` pins the y-axis (e.g. 100 for percentages); null auto-scales to the data's own peak.
// `fmt(v)` formats a raw sample for the hover tooltip.
function drawChart(id,data,color,fixedMax,fmt){
  var cv=document.getElementById(id);
  if(!cv||!data||!data.length)return;
  var w=cv.clientWidth||300,h=cv.height||28;
  if(cv.width!==w)cv.width=w;
"##;

/// Part 58 of the dashboard page.
pub const PAGE_58: &'static str = r##"  if(cv.height!==28)cv.height=28;
  var ctx=cv.getContext('2d');
  ctx.clearRect(0,0,w,h);
  var max=fixedMax||Math.max.apply(null,data.concat([1]));
  var n=data.length;
  function px(i){return n>1?(i/(n-1))*w:w;}
  function py(v){return h-Math.max(0,Math.min(1,v/max))*(h-2)-1;}
  ctx.beginPath();
  for(var i=0;i<n;i++){var x=px(i),y=py(data[i]);if(i===0)ctx.moveTo(x,y);else ctx.lineTo(x,y);}
  ctx.lineTo(w,h);ctx.lineTo(0,h);ctx.closePath();
  ctx.fillStyle=color+'2a';
  ctx.fill();
  ctx.beginPath();
  for(var j=0;j<n;j++){var x2=px(j),y2=py(data[j]);if(j===0)ctx.moveTo(x2,y2);else ctx.lineTo(x2,y2);}
  ctx.strokeStyle=color;ctx.lineWidth=1.25;ctx.stroke();
  cv._data=data;
  cv._fmt=fmt||function(v){return v.toFixed(1);};
  bindChartTooltip(cv);
  var stats=document.getElementById(id+'-stats');
  if(stats){
    var avgV=data.reduce(function(a,b){return a+b;},0)/n;
    var peakV=Math.max.apply(null,data);
    var avgLabel=LANG==='ko'?'기간 평균':'range avg';
    var peakLabel=LANG==='ko'?'최고':'peak';
    stats.textContent=avgLabel+' '+cv._fmt(avgV)+'   ·   '+peakLabel+' '+cv._fmt(peakV);
  }
}
// Which range's samples are on screen right now, so hover labels know the
// per-sample time step (2m = 1s/sample raw history, 1h = 1min/sample,
// 1d = 1h/sample — see RangedHistory on the Rust side).
var CHART_RANGE_LABEL='2m';
function fmtBytesPerSec(v){
  var u=['B','KB','MB','GB'],i=0;
  while(v>=1024&&i<u.length-1){v/=1024;i++;}
  return v.toFixed(1)+' '+u[i]+'/s';
}
function timeAgoLabel(i,n){
  var step=CHART_RANGE_LABEL==='1h'?60:CHART_RANGE_LABEL==='1d'?3600:1;
  var secAgo=(n-1-i)*step;
  if(LANG==='ko'){
    if(secAgo<=0)return '지금';
    if(secAgo<60)return secAgo+'초 전';
    if(secAgo<3600)return Math.round(secAgo/60)+'분 전';
    return Math.round(secAgo/3600)+'시간 전';
  }
  if(secAgo<=0)return 'now';
  if(secAgo<60)return secAgo+'s ago';
  if(secAgo<3600)return Math.round(secAgo/60)+'m ago';
  return Math.round(secAgo/3600)+'h ago';
}
// Bound once per canvas (dataset flag) since drawChart runs every tick but
// the canvas element itself is only ever created once.
function bindChartTooltip(cv){
  if(cv.dataset.tipBound)return;
  cv.dataset.tipBound='1';
  var tip=document.getElementById('chart-tip');
  if(!tip)return;
  cv.addEventListener('mousemove',function(e){
    var data=cv._data;
    if(!data||!data.length)return;
    var rect=cv.getBoundingClientRect();
    var frac=rect.width>0?Math.max(0,Math.min(1,(e.clientX-rect.left)/rect.width)):0;
"##;

/// Part 59 of the dashboard page.
pub const PAGE_59: &'static str = r##"    var i=Math.round(frac*(data.length-1));
    tip.textContent=cv._fmt(data[i])+'  ·  '+timeAgoLabel(i,data.length);
    tip.style.left=(e.clientX+10)+'px';
    tip.style.top=(e.clientY-26)+'px';
    tip.style.display='block';
  });
  cv.addEventListener('mouseleave',function(){tip.style.display='none';});
}
function reportHeight(){
  if(!window.ipc)return;
  window.ipc.postMessage('h:520');
}
// The popover stays fixed-height; overflow belongs inside `.main-pane`.
</script></body></html>"##;

} // verus!
