//! The helper programs that the worker starts, each with the arguments it
//! is given, and the names of the files that they read and leave.

use crate::decimal::{decimal_string, decimal_text};
use crate::document::OFFICE_PORT;
use crate::naming::{spec_split, split_source_path};
use crate::tools::{Command, CommandView};
use vstd::prelude::*;
use vstd::string::StringExecFns;

verus! {

/// The name under which the worker keeps the file it converts.
pub open spec fn spec_working_file(folder: Seq<char>) -> Seq<char> {
    folder + "/to_convert"@
}

/// The PNG that the general converter makes of an image.
pub open spec fn spec_converted_image(image: Seq<char>) -> Seq<char> {
    image + ".png"@
}

/// The PDF that the office suite makes of a document.
pub open spec fn spec_converted_document(document: Seq<char>) -> Seq<char> {
    document + ".pdf"@
}

/// The copy of a document that needs no password.
pub open spec fn spec_decrypted_document(document: Seq<char>) -> Seq<char> {
    document + ".nopassword"@
}

/// The pattern that the pages of a split PDF match.
pub open spec fn spec_page_pattern(folder: Seq<char>) -> Seq<char> {
    folder + "/pg_*.pdf"@
}

/// The address at which the office suite's server is tried.
pub open spec fn spec_server_address() -> Seq<char> {
    "127.0.0.1:"@ + decimal_text(OFFICE_PORT as nat)
}

/// The command that makes a PNG of an image that the decoder cannot read.
pub open spec fn spec_image_converter(image: Seq<char>) -> CommandView {
    CommandView {
        program: "gm"@,
        arguments: seq!["convert"@, image, "png:"@ + spec_converted_image(image)],
    }
}

/// The command that splits the PDF in `folder` into one PDF for each
/// page. It runs in `folder`.
pub open spec fn spec_splitter(folder: Seq<char>, password: Seq<char>) -> CommandView {
    CommandView {
        program: "pdftk"@,
        arguments: seq![spec_working_file(folder), "input_pw"@, password, "burst"@],
    }
}

/// The command that draws a page of a PDF as a PNG of the same name. It
/// runs in the folder of the page.
pub open spec fn spec_rasterizer(page: Seq<char>) -> CommandView {
    CommandView { program: "pdftocairo"@, arguments: seq![page, "-png"@, "-singlefile"@] }
}

/// The command that asks the user for a password.
pub open spec fn spec_prompter() -> CommandView {
    CommandView {
        program: "zenity"@,
        arguments: seq!["--title"@, "File protected by password"@, "--password"@],
    }
}

/// The command that makes a PDF of the document in `folder`.
pub open spec fn spec_office_converter(folder: Seq<char>) -> CommandView {
    CommandView {
        program: "libreoffice"@,
        arguments: seq![
            "--headless"@,
            "--convert-to"@,
            "pdf"@,
            spec_working_file(folder),
            "--outdir"@,
            folder,
        ],
    }
}

/// The command that starts the office suite's server.
pub open spec fn spec_office_server() -> CommandView {
    CommandView {
        program: "libreoffice"@,
        arguments: seq![
            "--accept=socket,host=localhost,port="@ + decimal_text(OFFICE_PORT as nat) + ";urp"@,
            "--headless"@,
        ],
    }
}

/// The decrypting script up to the place of the document.
pub open spec fn spec_script_to_source() -> Seq<char> {
    "\nimport uno\n\nsrc = \"file://"@
}

fn script_to_source() -> (text: &'static str)
    ensures
        text@ == spec_script_to_source(),
{
    "\nimport uno\n\nsrc = \"file://"
}

/// The decrypting script between the document and the copy.
pub open spec fn spec_script_to_target() -> Seq<char> {
    "\"\ndst = \"file://"@
}

fn script_to_target() -> (text: &'static str)
    ensures
        text@ == spec_script_to_target(),
{
    "\"\ndst = \"file://"
}

/// The decrypting script between the copy and the port.
pub open spec fn spec_script_to_port() -> Seq<char> {
    "\"\n\nlocal_context = uno.getComponentContext()\nresolver = local_context.ServiceManager.createInstanceWithContext(\"com.sun.star.bridge.UnoUrlResolver\",local_context)\nctx = resolver.resolve(\"uno:socket,host=localhost,port="@
}

fn script_to_port() -> (text: &'static str)
    ensures
        text@ == spec_script_to_port(),
{
    "\"\n\nlocal_context = uno.getComponentContext()\nresolver = local_context.ServiceManager.createInstanceWithContext(\"com.sun.star.bridge.UnoUrlResolver\",local_context)\nctx = resolver.resolve(\"uno:socket,host=localhost,port="
}

/// The decrypting script between the port and the password.
pub open spec fn spec_script_to_password() -> Seq<char> {
    ";urp;StarOffice.ComponentContext\")\nsmgr = ctx.ServiceManager\ndesktop = smgr.createInstanceWithContext(\"com.sun.star.frame.Desktop\", ctx)\n\nhidden_property = uno.createUnoStruct(\"com.sun.star.beans.PropertyValue\")\nhidden_property.Name = \"Hidden\"\nhidden_property.Value = True\n\npassword_property = uno.createUnoStruct(\"com.sun.star.beans.PropertyValue\")\npassword_property.Name = \"Password\"\npassword_property.Value = \""@
}

fn script_to_password() -> (text: &'static str)
    ensures
        text@ == spec_script_to_password(),
{
    ";urp;StarOffice.ComponentContext\")\nsmgr = ctx.ServiceManager\ndesktop = smgr.createInstanceWithContext(\"com.sun.star.frame.Desktop\", ctx)\n\nhidden_property = uno.createUnoStruct(\"com.sun.star.beans.PropertyValue\")\nhidden_property.Name = \"Hidden\"\nhidden_property.Value = True\n\npassword_property = uno.createUnoStruct(\"com.sun.star.beans.PropertyValue\")\npassword_property.Name = \"Password\"\npassword_property.Value = \""
}

/// The decrypting script after the password.
pub open spec fn spec_script_end() -> Seq<char> {
    "\"\n\ndocument = desktop.loadComponentFromURL(src,\"_blank\",0,(password_property, hidden_property,))\ndocument.storeAsURL(dst, ())"@
}

fn script_end() -> (text: &'static str)
    ensures
        text@ == spec_script_end(),
{
    "\"\n\ndocument = desktop.loadComponentFromURL(src,\"_blank\",0,(password_property, hidden_property,))\ndocument.storeAsURL(dst, ())"
}

/// The script that has the office suite's server open a document with a
/// password and store it again without one.
pub open spec fn spec_decrypt_script(
    document: Seq<char>,
    copy: Seq<char>,
    password: Seq<char>,
) -> Seq<char> {
    spec_script_to_source() + document + spec_script_to_target() + copy + spec_script_to_port()
        + decimal_text(OFFICE_PORT as nat) + spec_script_to_password() + password
        + spec_script_end()
}

/// The command that decrypts the document in `folder` with `password`.
pub open spec fn spec_decrypter(folder: Seq<char>, password: Seq<char>) -> CommandView {
    CommandView {
        program: "python3"@,
        arguments: seq![
            "-c"@,
            spec_decrypt_script(
                spec_working_file(folder),
                spec_decrypted_document(spec_working_file(folder)),
                password,
            ),
        ],
    }
}

/// The PNG that the drawer leaves for the page at `page`: in the folder of
/// the page, under the stem of its name.
pub open spec fn spec_page_image(page: Seq<char>) -> Option<Seq<char>> {
    match spec_split(page) {
        Some(parts) => Some(parts.directory + seq!['/'] + parts.stem + ".png"@),
        None => None,
    }
}

fn text(literal: &str) -> (owned: String)
    ensures
        owned@ == literal@,
{
    String::from_str(literal)
}

fn joined(head: &str, tail: &str) -> (whole: String)
    ensures
        whole@ == head@ + tail@,
{
    let mut whole = String::from_str(head);
    whole.append(tail);
    whole
}

/// The name under which the worker keeps the file it converts, in the
/// scratch folder of that file.
pub fn working_file(folder: &str) -> (path: String)
    ensures
        path@ == spec_working_file(folder@),
{
    joined(folder, "/to_convert")
}

/// The PNG that the general converter makes of the image at `image`.
pub fn converted_image(image: &str) -> (path: String)
    ensures
        path@ == spec_converted_image(image@),
{
    joined(image, ".png")
}

/// The PDF that the office suite makes of the document at `document`.
pub fn converted_document(document: &str) -> (path: String)
    ensures
        path@ == spec_converted_document(document@),
{
    joined(document, ".pdf")
}

/// The copy of the document at `document` that needs no password.
pub fn decrypted_document(document: &str) -> (path: String)
    ensures
        path@ == spec_decrypted_document(document@),
{
    joined(document, ".nopassword")
}

/// The pattern that the pages of the PDF split in `folder` match.
pub fn page_pattern(folder: &str) -> (pattern: String)
    ensures
        pattern@ == spec_page_pattern(folder@),
{
    joined(folder, "/pg_*.pdf")
}

/// The address at which the office suite's server is tried.
pub fn server_address() -> (address: String)
    ensures
        address@ == spec_server_address(),
{
    joined("127.0.0.1:", decimal_string(OFFICE_PORT as usize).as_str())
}

/// The command that makes a PNG of the image at `image`.
pub fn image_converter(image: &str) -> (command: Command)
    ensures
        command@ == spec_image_converter(image@),
{
    let mut arguments: Vec<String> = Vec::new();
    arguments.push(text("convert"));
    arguments.push(text(image));
    arguments.push(joined("png:", converted_image(image).as_str()));
    let command = Command { program: text("gm"), arguments };
    assert(command@.arguments =~= spec_image_converter(image@).arguments);
    command
}

/// The command that splits the PDF in `folder` with `password`.
pub fn splitter(folder: &str, password: &str) -> (command: Command)
    ensures
        command@ == spec_splitter(folder@, password@),
{
    let mut arguments: Vec<String> = Vec::new();
    arguments.push(working_file(folder));
    arguments.push(text("input_pw"));
    arguments.push(text(password));
    arguments.push(text("burst"));
    let command = Command { program: text("pdftk"), arguments };
    assert(command@.arguments =~= spec_splitter(folder@, password@).arguments);
    command
}

/// The command that draws the page at `page`.
pub fn rasterizer(page: &str) -> (command: Command)
    ensures
        command@ == spec_rasterizer(page@),
{
    let mut arguments: Vec<String> = Vec::new();
    arguments.push(text(page));
    arguments.push(text("-png"));
    arguments.push(text("-singlefile"));
    let command = Command { program: text("pdftocairo"), arguments };
    assert(command@.arguments =~= spec_rasterizer(page@).arguments);
    command
}

/// The command that asks the user for a password.
pub fn prompter() -> (command: Command)
    ensures
        command@ == spec_prompter(),
{
    let mut arguments: Vec<String> = Vec::new();
    arguments.push(text("--title"));
    arguments.push(text("File protected by password"));
    arguments.push(text("--password"));
    let command = Command { program: text("zenity"), arguments };
    assert(command@.arguments =~= spec_prompter().arguments);
    command
}

/// The command that makes a PDF of the document in `folder`.
pub fn office_converter(folder: &str) -> (command: Command)
    ensures
        command@ == spec_office_converter(folder@),
{
    let mut arguments: Vec<String> = Vec::new();
    arguments.push(text("--headless"));
    arguments.push(text("--convert-to"));
    arguments.push(text("pdf"));
    arguments.push(working_file(folder));
    arguments.push(text("--outdir"));
    arguments.push(text(folder));
    let command = Command { program: text("libreoffice"), arguments };
    assert(command@.arguments =~= spec_office_converter(folder@).arguments);
    command
}

/// The command that starts the office suite's server.
pub fn office_server() -> (command: Command)
    ensures
        command@ == spec_office_server(),
{
    let mut accept = joined(
        "--accept=socket,host=localhost,port=",
        decimal_string(OFFICE_PORT as usize).as_str(),
    );
    accept.append(";urp");
    let mut arguments: Vec<String> = Vec::new();
    arguments.push(accept);
    arguments.push(text("--headless"));
    let command = Command { program: text("libreoffice"), arguments };
    assert(command@.arguments =~= spec_office_server().arguments);
    command
}

/// The script that decrypts the document at `document` into `copy`.
pub fn decrypt_script(document: &str, copy: &str, password: &str) -> (script: String)
    ensures
        script@ == spec_decrypt_script(document@, copy@, password@),
{
    let mut script = String::from_str(script_to_source());
    script.append(document);
    script.append(script_to_target());
    script.append(copy);
    script.append(script_to_port());
    script.append(decimal_string(OFFICE_PORT as usize).as_str());
    script.append(script_to_password());
    script.append(password);
    script.append(script_end());
    script
}

/// The command that decrypts the document in `folder` with `password`.
pub fn decrypter(folder: &str, password: &str) -> (command: Command)
    ensures
        command@ == spec_decrypter(folder@, password@),
{
    let document = working_file(folder);
    let copy = decrypted_document(document.as_str());
    let mut arguments: Vec<String> = Vec::new();
    arguments.push(text("-c"));
    arguments.push(decrypt_script(document.as_str(), copy.as_str(), password));
    let command = Command { program: text("python3"), arguments };
    assert(command@.arguments =~= spec_decrypter(folder@, password@).arguments);
    command
}

/// The PNG that the drawer leaves for the page at `page`, if `page` is the
/// path of a file.
pub fn page_image(page: &str) -> (image: Option<String>)
    ensures
        match spec_page_image(page@) {
            Some(path) => image matches Some(found) && found@ == path,
            None => image is None,
        },
{
    match split_source_path(page) {
        Some(parts) => {
            proof {
                reveal_strlit("/");
            }
            let mut image = String::from_str(parts.directory.as_str());
            image.append("/");
            image.append(parts.stem.as_str());
            image.append(".png");
            assert(image@ =~= spec_page_image(page@).unwrap());
            Some(image)
        },
        None => None,
    }
}

} // verus!
